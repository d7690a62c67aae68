//! Tests of the field-type algebra, the builder, validation and the
//! projections.

use entity_schema::builder::{ArgValue, Definition, DirectiveDef, Document, EnumDef, FieldDef, ObjectDef, TypeExpr};
use entity_schema::errors::SchemaError;
use entity_schema::field_type::{AbiParamKind, FieldType, GqlScalar, UserDefinedFieldType};
use entity_schema::schema::{Entity, Field, GraphQLEnum, Schema};

fn type_expr_of(t: &UserDefinedFieldType) -> TypeExpr {
    match t {
        UserDefinedFieldType::Single(sc) => TypeExpr::Named(sc.to_string()),
        UserDefinedFieldType::ListType(inner) => TypeExpr::List(Box::new(type_expr_of(inner))),
        UserDefinedFieldType::NonNullType(inner) => TypeExpr::NonNull(Box::new(type_expr_of(inner))),
    }
}

fn field_def(name: &str, type_str: &str, directives: Vec<DirectiveDef>) -> FieldDef {
    let parsed = UserDefinedFieldType::from_display(type_str).expect("bad type expression");
    FieldDef { name: name.to_string(), field_type: type_expr_of(&parsed), directives }
}

fn derived_from(target_field: &str) -> DirectiveDef {
    DirectiveDef {
        name: "derivedFrom".to_string(),
        arguments: vec![("field".to_string(), ArgValue::Str(target_field.to_string()))],
    }
}

fn get_field_type_helper_with_additional(
    gql_field_str: &str,
    enum_types: Vec<GraphQLEnum>,
) -> FieldType {
    let mut definitions = vec![Definition::Object(ObjectDef {
        name: "TestEntity".to_string(),
        fields: vec![field_def("test_field", gql_field_str, vec![])],
    })];
    for e in enum_types {
        definitions.push(Definition::Enum(EnumDef { name: e.name, values: e.values }));
    }
    let schema = Schema::from_document(&Document { definitions }).expect("bad schema");
    let entity = schema.find_entity("TestEntity").expect("No test entity in schema");
    let field = entity.find_field("test_field").expect("No field test_field on entity");
    field.field_type.clone()
}

fn get_field_type_helper(gql_field_str: &str) -> FieldType {
    get_field_type_helper_with_additional(gql_field_str, vec![])
}

fn gql_type_to_postgres_type_test_helper(gql_field_str: &str) -> String {
    let field_type = get_field_type_helper(gql_field_str);
    let empty_schema = Schema::empty();
    field_type.to_postgres_type(&empty_schema).expect("unable to get postgres type")
}

#[test]
fn gql_type_to_rescript_type_string() {
    let empty_schema = Schema::empty();
    let rescript_type = UserDefinedFieldType::Single(GqlScalar::String)
        .to_rescript_type(&empty_schema)
        .expect("expected rescript option string");

    assert_eq!(rescript_type.to_string(), "option<string>".to_owned());
}

#[test]
fn gql_type_to_rescript_type_int() {
    let empty_schema = Schema::empty();
    let rescript_type = UserDefinedFieldType::Single(GqlScalar::Int)
        .to_rescript_type(&empty_schema)
        .expect("expected rescript option string");

    assert_eq!(rescript_type.to_string(), "option<int>".to_owned());
}

#[test]
fn gql_type_to_rescript_type_non_null_int() {
    let empty_schema = Schema::empty();
    let rescript_type = UserDefinedFieldType::NonNullType(Box::new(UserDefinedFieldType::Single(
        GqlScalar::Int,
    )))
    .to_rescript_type(&empty_schema)
    .expect("expected rescript type string");

    assert_eq!(rescript_type.to_string(), "int".to_owned());
}

#[test]
fn gql_type_to_rescript_type_non_null_array() {
    let empty_schema = Schema::empty();
    let rescript_type = UserDefinedFieldType::NonNullType(Box::new(
        UserDefinedFieldType::ListType(Box::new(UserDefinedFieldType::NonNullType(Box::new(
            UserDefinedFieldType::Single(GqlScalar::Int),
        )))),
    ))
    .to_rescript_type(&empty_schema)
    .expect("expected rescript type string");

    assert_eq!(rescript_type.to_string(), "array<int>".to_owned());
}

#[test]
fn gql_type_to_rescript_type_null_array_int() {
    let empty_schema = Schema::empty();

    let rescript_type =
        UserDefinedFieldType::ListType(Box::new(UserDefinedFieldType::Single(GqlScalar::Int)))
            .to_rescript_type(&empty_schema)
            .expect("expected rescript type string");

    assert_eq!(rescript_type.to_string(), "option<array<option<int>>>".to_owned());
}

#[test]
fn gql_type_to_rescript_type_entity() {
    let test_entity_string = String::from("TestEntity");
    let test_entity = Entity::new(test_entity_string.clone(), vec![]).unwrap();
    let schema = Schema::new(vec![test_entity], vec![]).unwrap();
    let rescript_type = UserDefinedFieldType::Single(GqlScalar::Custom(test_entity_string))
        .to_rescript_type(&schema)
        .expect("expected rescript type string");

    assert_eq!(rescript_type.to_string(), "option<id>".to_owned());
}

#[test]
fn gql_type_to_rescript_type_enum() {
    let name = String::from("TestEnum");
    let test_enum = GraphQLEnum::new(name.clone(), vec![]).unwrap();
    let schema = Schema::new(vec![], vec![test_enum]).unwrap();
    let rescript_type = UserDefinedFieldType::Single(GqlScalar::Custom(name))
        .to_rescript_type(&schema)
        .expect("expected rescript type string");

    assert_eq!(rescript_type.to_string(), "option<Enums.testEnum>".to_owned());
}

#[test]
fn field_type_is_optional_test() {
    let test_scalar = GqlScalar::Custom(String::from("TestEntity"));
    let test_field_type = UserDefinedFieldType::Single(test_scalar);
    assert!(test_field_type.is_optional(), "single field should have been optional");

    // ListType:
    let test_list_type = UserDefinedFieldType::ListType(Box::new(test_field_type));
    assert!(test_list_type.is_optional(), "list field should have been optional");

    // NonNullType
    let gql_array_non_null_type = UserDefinedFieldType::NonNullType(Box::new(test_list_type));
    assert!(!gql_array_non_null_type.is_optional(), "non-null field should not be optioonal");
}

#[test]
fn gql_enum_type_to_postgres_type() {
    let name = String::from("TestEnum");
    let test_enum = GraphQLEnum::new(name.clone(), vec!["TEST_VALUE".to_string()]).unwrap();
    let field_type = get_field_type_helper_with_additional("TestEnum!", vec![test_enum.clone()]);
    let schema = Schema::new(vec![], vec![test_enum]).unwrap();
    let pg_type = field_type.to_postgres_type(&schema).expect("unable to get postgres type");
    assert_eq!(pg_type, "TestEnum NOT NULL");
}

#[test]
fn gql_single_not_null_array_to_pg_type() {
    let gql_type = "[String!]!";
    let pg_type = gql_type_to_postgres_type_test_helper(gql_type);
    assert_eq!(pg_type, "text[] NOT NULL");
}

#[test]
fn gql_multi_not_null_array_to_pg_type() {
    let gql_type = "[[Int!]!]!";
    let pg_type = gql_type_to_postgres_type_test_helper(gql_type);
    assert_eq!(pg_type, "integer[][] NOT NULL");
}

#[test]
#[should_panic]
fn gql_single_nullable_array_to_pg_type_should_panic() {
    let gql_type = "[Int]!"; //Nested lists need to be not nullable
    gql_type_to_postgres_type_test_helper(gql_type);
}

#[test]
#[should_panic]
fn gql_multi_nullable_array_to_pg_type_should_panic() {
    let gql_type = "[[Int!]]!"; //Nested lists need to be not nullable
    gql_type_to_postgres_type_test_helper(gql_type);
}

#[test]
fn test_nullability_to_string() {
    let scalar = UserDefinedFieldType::NonNullType(Box::new(UserDefinedFieldType::ListType(
        Box::new(UserDefinedFieldType::Single(GqlScalar::Int)),
    )));

    let expected_output = "[Int]!".to_string();

    assert_eq!(scalar.to_string(), expected_output);
}

#[test]
fn gql_type_to_rescript_nullable() {
    let field_type = get_field_type_helper("Int");

    let empty_schema = Schema::empty();
    let rescript_type = field_type.to_rescript_type(&empty_schema).unwrap();
    assert_eq!("option<int>".to_string(), rescript_type.to_string());
}

#[test]
fn display_string_round_trips() {
    for type_str in ["Int", "[Int!]!", "[[BigInt!]!]!", "[Post!]!", "ID!", "Bytes"] {
        let parsed = UserDefinedFieldType::from_display(type_str).expect("should parse");
        assert_eq!(parsed.to_string(), type_str);
        let reparsed = UserDefinedFieldType::from_display(parsed.to_string().as_str());
        assert_eq!(reparsed, Some(parsed));
    }
    let nullable_list = UserDefinedFieldType::NonNullType(Box::new(
        UserDefinedFieldType::ListType(Box::new(UserDefinedFieldType::Single(GqlScalar::Int))),
    ));
    assert_eq!(
        UserDefinedFieldType::from_display(nullable_list.to_string().as_str()),
        Some(nullable_list)
    );
}

#[test]
fn validation_is_idempotent() {
    let schema = Schema::new(
        vec![Entity::new(
            "User".to_string(),
            vec![Field {
                name: "id".to_string(),
                field_type: FieldType::RegularField(UserDefinedFieldType::NonNullType(Box::new(
                    UserDefinedFieldType::Single(GqlScalar::ID),
                ))),
            }],
        )
        .unwrap()],
        vec![GraphQLEnum::new("Color".to_string(), vec!["RED".to_string()]).unwrap()],
    )
    .unwrap();
    let again = schema.clone().validate().expect("revalidation must succeed");
    assert_eq!(again, schema);
}

#[test]
fn duplicate_names_are_rejected() {
    let two_entities = Schema::new(
        vec![
            Entity::new("User".to_string(), vec![]).unwrap(),
            Entity::new("User".to_string(), vec![]).unwrap(),
        ],
        vec![],
    );
    assert_eq!(
        two_entities,
        Err(SchemaError::DuplicateEntityNames { names: vec!["User".to_string()] })
    );

    let two_enums = Schema::new(
        vec![],
        vec![
            GraphQLEnum::new("Color".to_string(), vec![]).unwrap(),
            GraphQLEnum::new("Color".to_string(), vec![]).unwrap(),
        ],
    );
    assert_eq!(
        two_enums,
        Err(SchemaError::DuplicateEnumNames { names: vec!["Color".to_string()] })
    );

    let collision = Schema::new(
        vec![Entity::new("Color".to_string(), vec![]).unwrap()],
        vec![GraphQLEnum::new("Color".to_string(), vec![]).unwrap()],
    );
    assert_eq!(
        collision,
        Err(SchemaError::DuplicateTypeDefNames { names: vec!["Color".to_string()] })
    );
}

#[test]
fn enum_construction_rejections() {
    let dup_values = GraphQLEnum::new(
        "Color".to_string(),
        vec!["RED".to_string(), "BLUE".to_string(), "RED".to_string()],
    );
    assert_eq!(
        dup_values,
        Err(SchemaError::DuplicateEnumValues {
            enum_name: "Color".to_string(),
            values: vec!["RED".to_string()],
        })
    );

    let bad_name = GraphQLEnum::new("Color".to_string(), vec!["has space".to_string()]);
    assert_eq!(
        bad_name,
        Err(SchemaError::InvalidStorageNames { names: vec!["has space".to_string()] })
    );

    let dup_fields = Entity::new(
        "User".to_string(),
        vec![
            Field {
                name: "id".to_string(),
                field_type: FieldType::RegularField(UserDefinedFieldType::Single(GqlScalar::ID)),
            },
            Field {
                name: "id".to_string(),
                field_type: FieldType::RegularField(UserDefinedFieldType::Single(GqlScalar::ID)),
            },
        ],
    );
    assert_eq!(
        dup_fields,
        Err(SchemaError::DuplicateFieldNames {
            entity: "User".to_string(),
            names: vec!["id".to_string()],
        })
    );
}

#[test]
fn illegal_shapes_are_rejected() {
    let empty_schema = Schema::empty();

    let nullable_scalar_in_list = UserDefinedFieldType::NonNullType(Box::new(
        UserDefinedFieldType::ListType(Box::new(UserDefinedFieldType::Single(GqlScalar::Int))),
    ));
    assert_eq!(
        nullable_scalar_in_list.validate_type(&empty_schema),
        Err(SchemaError::NullableScalarInList { scalar: "Int".to_string() })
    );

    let nullable_nested_list = UserDefinedFieldType::from_display("[[Int!]]!").unwrap();
    assert_eq!(
        nullable_nested_list.validate_type(&empty_schema),
        Err(SchemaError::NullableListInList)
    );

    let nested_non_null = UserDefinedFieldType::NonNullType(Box::new(
        UserDefinedFieldType::NonNullType(Box::new(UserDefinedFieldType::Single(GqlScalar::Int))),
    ));
    assert_eq!(nested_non_null.validate_type(&empty_schema), Err(SchemaError::NestedNonNull));

    let entity_b = Entity::new("B".to_string(), vec![]).unwrap();
    let schema = Schema::new(vec![entity_b], vec![]).unwrap();
    let array_of_entities = UserDefinedFieldType::from_display("[B!]!").unwrap();
    assert_eq!(
        array_of_entities.validate_type(&schema),
        Err(SchemaError::ArrayOfEntities { entity: "B".to_string() })
    );

    let dangling = UserDefinedFieldType::from_display("[Missing!]!").unwrap();
    assert_eq!(
        dangling.validate_type(&Schema::empty()),
        Err(SchemaError::UnknownTypeDef { name: "Missing".to_string() })
    );
}

#[test]
fn derived_field_relational_keys() {
    // A.bs: [B!]! @derivedFrom(field: "a"); B.a: A! gives the key "a_id".
    let doc = Document {
        definitions: vec![
            Definition::Object(ObjectDef {
                name: "A".to_string(),
                fields: vec![
                    field_def("id", "ID!", vec![]),
                    field_def("bs", "[B!]!", vec![derived_from("a")]),
                ],
            }),
            Definition::Object(ObjectDef {
                name: "B".to_string(),
                fields: vec![field_def("id", "ID!", vec![]), field_def("a", "A!", vec![])],
            }),
        ],
    };
    let schema = Schema::from_document(&doc).expect("schema should validate");
    let a = schema.find_entity("A").unwrap();
    let bs = a.find_field("bs").unwrap();
    assert_eq!(bs.get_relational_key(&schema).unwrap(), "a_id");

    // With B.a: String! instead, the key is the field name unchanged.
    let doc2 = Document {
        definitions: vec![
            Definition::Object(ObjectDef {
                name: "A".to_string(),
                fields: vec![
                    field_def("id", "ID!", vec![]),
                    field_def("bs", "[B!]!", vec![derived_from("a")]),
                ],
            }),
            Definition::Object(ObjectDef {
                name: "B".to_string(),
                fields: vec![field_def("id", "ID!", vec![]), field_def("a", "String!", vec![])],
            }),
        ],
    };
    let schema2 = Schema::from_document(&doc2).expect("schema should validate");
    let bs2 = schema2.find_entity("A").unwrap().find_field("bs").unwrap();
    assert_eq!(bs2.get_relational_key(&schema2).unwrap(), "a");
}

#[test]
fn derived_field_errors() {
    let multi = FieldDef {
        name: "bs".to_string(),
        field_type: type_expr_of(&UserDefinedFieldType::from_display("[B!]!").unwrap()),
        directives: vec![derived_from("a"), derived_from("b")],
    };
    assert_eq!(
        Field::from_obj_field(&multi),
        Err(SchemaError::MultipleDerivedFromDirectives { field: "bs".to_string() })
    );

    let missing_arg = FieldDef {
        name: "bs".to_string(),
        field_type: type_expr_of(&UserDefinedFieldType::from_display("[B!]!").unwrap()),
        directives: vec![DirectiveDef { name: "derivedFrom".to_string(), arguments: vec![] }],
    };
    assert_eq!(
        Field::from_obj_field(&missing_arg),
        Err(SchemaError::MissingDerivedFromFieldArg { field: "bs".to_string() })
    );

    let non_string = FieldDef {
        name: "bs".to_string(),
        field_type: type_expr_of(&UserDefinedFieldType::from_display("[B!]!").unwrap()),
        directives: vec![DirectiveDef {
            name: "derivedFrom".to_string(),
            arguments: vec![("field".to_string(), ArgValue::Other)],
        }],
    };
    assert_eq!(
        Field::from_obj_field(&non_string),
        Err(SchemaError::NonStringDerivedFromFieldArg { field: "bs".to_string() })
    );

    let bad_shape = FieldDef {
        name: "bs".to_string(),
        field_type: type_expr_of(&UserDefinedFieldType::from_display("[B!]").unwrap()),
        directives: vec![derived_from("a")],
    };
    assert_eq!(
        Field::from_obj_field(&bad_shape),
        Err(SchemaError::InvalidDerivedFromStructure { field: "a".to_string() })
    );
}

#[test]
fn reserved_and_dangling_names_are_rejected() {
    let reserved_entity = Schema::new(
        vec![Entity::new("break".to_string(), vec![]).unwrap()],
        vec![],
    );
    assert_eq!(
        reserved_entity,
        Err(SchemaError::ReservedWords { names: vec!["break".to_string()] })
    );

    let reserved_field = Schema::new(
        vec![Entity::new(
            "User".to_string(),
            vec![Field {
                name: "import".to_string(),
                field_type: FieldType::RegularField(UserDefinedFieldType::Single(GqlScalar::ID)),
            }],
        )
        .unwrap()],
        vec![],
    );
    assert_eq!(
        reserved_field,
        Err(SchemaError::ReservedWords { names: vec!["import".to_string()] })
    );

    let reserved_enum = Schema::new(
        vec![],
        vec![GraphQLEnum::new("ContractType".to_string(), vec![]).unwrap()],
    );
    assert_eq!(
        reserved_enum,
        Err(SchemaError::ReservedEnumNames { names: vec!["ContractType".to_string()] })
    );

    let unrelated = Schema::new(
        vec![Entity::new("Account".to_string(), vec![]).unwrap()],
        vec![],
    );
    assert!(unrelated.is_ok());

    let dangling = Schema::new(
        vec![Entity::new(
            "User".to_string(),
            vec![Field {
                name: "pet".to_string(),
                field_type: FieldType::RegularField(UserDefinedFieldType::Single(
                    GqlScalar::Custom("Pet".to_string()),
                )),
            }],
        )
        .unwrap()],
        vec![],
    );
    assert_eq!(dangling, Err(SchemaError::UnknownTypeDef { name: "Pet".to_string() }));
}

#[test]
fn end_to_end_user_post_schema() {
    let doc = Document {
        definitions: vec![
            Definition::Object(ObjectDef {
                name: "User".to_string(),
                fields: vec![
                    field_def("id", "ID!", vec![]),
                    field_def("name", "String!", vec![]),
                    field_def("posts", "[Post!]!", vec![derived_from("author")]),
                ],
            }),
            Definition::Object(ObjectDef {
                name: "Post".to_string(),
                fields: vec![
                    field_def("id", "ID!", vec![]),
                    field_def("author", "User!", vec![]),
                ],
            }),
        ],
    };
    let schema = Schema::from_document(&doc).expect("schema should validate");

    let user = schema.find_entity("User").unwrap();
    let id = user.find_field("id").unwrap();
    assert_eq!(id.field_type.to_postgres_type(&schema).unwrap(), "text NOT NULL");

    let posts = user.find_field("posts").unwrap();
    assert_eq!(posts.get_relational_key(&schema).unwrap(), "author_id");
    assert!(posts.field_type.is_derived_from());

    let author = schema.find_entity("Post").unwrap().find_field("author").unwrap();
    assert_eq!(author.field_type.to_postgres_type(&schema).unwrap(), "text NOT NULL");
    assert!(author.field_type.is_entity_field(&schema).unwrap());
}

#[test]
fn relationships_and_related_entities() {
    let doc = Document {
        definitions: vec![
            Definition::Object(ObjectDef {
                name: "User".to_string(),
                fields: vec![
                    field_def("id", "ID!", vec![]),
                    field_def("posts", "[Post!]!", vec![derived_from("author")]),
                ],
            }),
            Definition::Object(ObjectDef {
                name: "Post".to_string(),
                fields: vec![
                    field_def("id", "ID!", vec![]),
                    field_def("author", "User!", vec![]),
                ],
            }),
        ],
    };
    let schema = Schema::from_document(&doc).expect("schema should validate");
    let user = schema.find_entity("User").unwrap();

    let rels = user.get_relationships();
    assert_eq!(rels.len(), 2);

    let related = user
        .get_related_entities(&schema.entities, &schema.enums)
        .expect("references should resolve");
    assert_eq!(related.len(), 1);
    assert_eq!(related[0].0.name, "posts");
    assert_eq!(related[0].1.name, "Post");
}

#[test]
fn abi_param_kinds_convert() {
    let uint = AbiParamKind::Uint(256);
    assert_eq!(
        UserDefinedFieldType::from_ethabi_type(&uint).unwrap().to_string(),
        "BigInt!"
    );
    let flag = AbiParamKind::Bool;
    assert_eq!(
        UserDefinedFieldType::from_ethabi_type(&flag).unwrap().to_string(),
        "Boolean!"
    );
    let addresses = AbiParamKind::Array(Box::new(AbiParamKind::Address));
    assert_eq!(
        UserDefinedFieldType::from_ethabi_type(&addresses).unwrap().to_string(),
        "[String!]!"
    );
    let fixed = AbiParamKind::FixedArray(Box::new(AbiParamKind::Uint(8)), 4);
    assert_eq!(
        UserDefinedFieldType::from_ethabi_type(&fixed).unwrap().to_string(),
        "[BigInt!]!"
    );
    let tuple = AbiParamKind::Tuple(vec![AbiParamKind::Bool]);
    assert_eq!(
        FieldType::from_ethabi_type(&tuple),
        Err(SchemaError::UnsupportedTuple)
    );
}

#[test]
fn is_array_follows_wrappers() {
    let list = UserDefinedFieldType::from_display("[Int!]!").unwrap();
    assert!(list.is_array());
    let single = UserDefinedFieldType::from_display("Int!").unwrap();
    assert!(!single.is_array());
    let derived = FieldType::DerivedFromField {
        entity_name: "B".to_string(),
        derived_from_field: "a".to_string(),
    };
    assert!(derived.is_array());
    assert!(!derived.is_optional());
    assert_eq!(derived.to_string(), "[B!]! @derivedFrom(field: \"a\")");
}

#[test]
fn nullability_algebra_storage_projection() {
    let empty_schema = Schema::empty();
    let t = UserDefinedFieldType::NonNullType(Box::new(UserDefinedFieldType::ListType(Box::new(
        UserDefinedFieldType::NonNullType(Box::new(UserDefinedFieldType::Single(GqlScalar::Int))),
    ))));
    assert_eq!(t.to_postgres_type(&empty_schema).unwrap(), "integer[] NOT NULL");
}

#[test]
fn derived_target_errors_surface_in_validation() {
    // deriving from an enum is refused
    let doc = Document {
        definitions: vec![
            Definition::Object(ObjectDef {
                name: "A".to_string(),
                fields: vec![field_def("bs", "[B!]!", vec![derived_from("a")])],
            }),
            Definition::Enum(EnumDef { name: "B".to_string(), values: vec!["X".to_string()] }),
        ],
    };
    assert_eq!(
        Schema::from_document(&doc),
        Err(SchemaError::DerivedFromEnum { enum_name: "B".to_string(), field: "a".to_string() })
    );

    // the target field must exist on the target entity
    let doc = Document {
        definitions: vec![
            Definition::Object(ObjectDef {
                name: "A".to_string(),
                fields: vec![field_def("bs", "[B!]!", vec![derived_from("a")])],
            }),
            Definition::Object(ObjectDef {
                name: "B".to_string(),
                fields: vec![field_def("id", "ID!", vec![])],
            }),
        ],
    };
    assert_eq!(
        Schema::from_document(&doc),
        Err(SchemaError::DerivedFieldMissing { entity: "B".to_string(), field: "a".to_string() })
    );

    // the target field must be an ID, a String, or a reciprocal reference
    let doc = Document {
        definitions: vec![
            Definition::Object(ObjectDef {
                name: "A".to_string(),
                fields: vec![field_def("bs", "[B!]!", vec![derived_from("a")])],
            }),
            Definition::Object(ObjectDef {
                name: "B".to_string(),
                fields: vec![field_def("a", "Int!", vec![])],
            }),
        ],
    };
    assert_eq!(
        Schema::from_document(&doc),
        Err(SchemaError::IllegalRelationalKeyType {
            entity: "B".to_string(),
            field: "a".to_string(),
        })
    );
}

#[test]
fn ambiguous_names_are_reported_on_lookup() {
    // a schema assembled directly can hold a name in both namespaces; the
    // lookup reports the ambiguity
    let schema = Schema {
        entities: vec![Entity::new("Color".to_string(), vec![]).unwrap()],
        enums: vec![GraphQLEnum::new("Color".to_string(), vec![]).unwrap()],
    };
    let t = UserDefinedFieldType::Single(GqlScalar::Custom("Color".to_string()));
    assert_eq!(
        t.to_postgres_type(&schema),
        Err(SchemaError::AmbiguousTypeDef { name: "Color".to_string() })
    );
}

#[test]
fn names_must_match_storage_grammar() {
    let bad_entity =
        Schema::new(vec![Entity::new("bad name".to_string(), vec![]).unwrap()], vec![]);
    assert_eq!(
        bad_entity,
        Err(SchemaError::InvalidStorageNames { names: vec!["bad name".to_string()] })
    );

    let long_name = "a".repeat(64);
    let bad_field = Schema::new(
        vec![Entity::new(
            "User".to_string(),
            vec![Field {
                name: long_name.clone(),
                field_type: FieldType::RegularField(UserDefinedFieldType::Single(GqlScalar::ID)),
            }],
        )
        .unwrap()],
        vec![],
    );
    assert_eq!(bad_field, Err(SchemaError::InvalidStorageNames { names: vec![long_name] }));

    let fine = Schema::new(vec![Entity::new("_Account1".to_string(), vec![]).unwrap()], vec![]);
    assert!(fine.is_ok());
}
