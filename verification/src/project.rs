//! Projection of the validated type algebra into the storage and
//! application type systems, and relationship resolution.

use vstd::prelude::*;
use vstd::string::StringExecFns;
use crate::errors::{ErrorView, SchemaError};
use crate::field_type::{FieldType, FieldTypeView, GqlScalar, ScalarView, TypeView, UserDefinedFieldType, field_type_as_type, underlying_scalar};
use crate::ident::str_eq;
use crate::rescript::{CapitalizedOptions, RescriptType, spec_capitalized, spec_uncapitalized, to_capitalized_options};
use crate::schema::{Entity, EntityView, EnumView, Field, FieldView, GraphQLEnum, Schema, SchemaView, TypeDef, entity_named, entity_named_in, field_named, has_entity, has_entity_in, has_enum, has_enum_in, has_field, lemma_first_entity_idx, resolves_to_entity, resolves_to_enum};
use crate::validate::resolution_error;

verus! {

/// The storage type of a scalar: text-like scalars store as `text`,
/// integers as `integer`, arbitrary-precision kinds as `numeric`, booleans
/// as `boolean`; an entity reference stores as `text` (the foreign key),
/// and an enum reference as the enum's own name.
pub open spec fn pg_scalar(s: SchemaView, sc: ScalarView) -> Result<Seq<char>, ErrorView> {
    match sc {
        ScalarView::Id => Ok("text"@),
        ScalarView::Str => Ok("text"@),
        ScalarView::Int => Ok("integer"@),
        ScalarView::Float => Ok("numeric"@),
        ScalarView::Boolean => Ok("boolean"@),
        ScalarView::Bytes => Ok("text"@),
        ScalarView::BigInt => Ok("numeric"@),
        ScalarView::Custom(name) => {
            if !has_entity(s, name) && !has_enum(s, name) {
                Err(ErrorView::UnknownTypeDef { name })
            } else if has_entity(s, name) && has_enum(s, name) {
                Err(ErrorView::AmbiguousTypeDef { name })
            } else if has_entity(s, name) {
                Ok("text"@)
            } else {
                Ok(name)
            }
        },
    }
}

/// The storage type of a type: a valid list appends `[]` to its element's
/// storage type, a non-null wrapper appends ` NOT NULL`; a list whose
/// element is not non-null has no storage type, validation excludes it.
pub open spec fn pg_type(s: SchemaView, t: TypeView) -> Result<Seq<char>, ErrorView>
    decreases t,
{
    match t {
        TypeView::Single(sc) => pg_scalar(s, sc),
        TypeView::List(element) => match *element {
            TypeView::NonNull(inner) => match pg_type(s, *inner) {
                Ok(p) => Ok(p + "[]"@),
                Err(e) => Err(e),
            },
            _ => Err(ErrorView::ListProjectionInvariant),
        },
        TypeView::NonNull(element) => match pg_type(s, *element) {
            Ok(p) => Ok(p + " NOT NULL"@),
            Err(e) => Err(e),
        },
    }
}

impl GqlScalar {
    /// The storage type of this scalar.
    pub fn to_postgres_type(&self, schema: &Schema) -> (r: Result<String, SchemaError>)
        ensures
            match r {
                Result::Ok(p) => pg_scalar(schema@, self@) == Ok::<Seq<char>, ErrorView>(p@),
                Result::Err(e) => pg_scalar(schema@, self@) == Err::<Seq<char>, ErrorView>(e@),
            },
    {
        match self {
            GqlScalar::ID => Ok("text".to_owned()),
            GqlScalar::String => Ok("text".to_owned()),
            GqlScalar::Int => Ok("integer".to_owned()),
            GqlScalar::Float => Ok("numeric".to_owned()),
            GqlScalar::Boolean => Ok("boolean".to_owned()),
            GqlScalar::Bytes => Ok("text".to_owned()),
            GqlScalar::BigInt => Ok("numeric".to_owned()),
            GqlScalar::Custom(name) => match schema.try_get_type_def(name)? {
                TypeDef::Entity(_) => Ok("text".to_owned()),
                TypeDef::Enum(_) => Ok(name.clone()),
            },
        }
    }
}

impl UserDefinedFieldType {
    /// The storage type of this type.
    pub fn to_postgres_type(&self, schema: &Schema) -> (r: Result<String, SchemaError>)
        ensures
            match r {
                Result::Ok(p) => pg_type(schema@, self@) == Ok::<Seq<char>, ErrorView>(p@),
                Result::Err(e) => pg_type(schema@, self@) == Err::<Seq<char>, ErrorView>(e@),
            },
        decreases *self,
    {
        proof {
            reveal_with_fuel(UserDefinedFieldType::model, 3);
        }
        match self {
            UserDefinedFieldType::Single(sc) => sc.to_postgres_type(schema),
            UserDefinedFieldType::ListType(element) => match &**element {
                UserDefinedFieldType::NonNullType(inner) => {
                    let mut p = inner.to_postgres_type(schema)?;
                    p.append("[]");
                    Ok(p)
                },
                _ => Err(SchemaError::ListProjectionInvariant),
            },
            UserDefinedFieldType::NonNullType(element) => {
                let mut p = element.to_postgres_type(schema)?;
                p.append(" NOT NULL");
                Ok(p)
            },
        }
    }
}

impl FieldType {
    /// The storage type of the declared type this field's type stands for.
    pub fn to_postgres_type(&self, schema: &Schema) -> (r: Result<String, SchemaError>)
        ensures
            match r {
                Result::Ok(p) => pg_type(schema@, field_type_as_type(self@)) == Ok::<
                    Seq<char>,
                    ErrorView,
                >(p@),
                Result::Err(e) => pg_type(schema@, field_type_as_type(self@)) == Err::<
                    Seq<char>,
                    ErrorView,
                >(e@),
            },
    {
        self.to_user_defined_field_type().to_postgres_type(schema)
    }
}

/// The first unresolved reference a scalar's application projection meets.
pub open spec fn scalar_rescript_error(s: SchemaView, sc: ScalarView) -> Option<ErrorView> {
    match sc {
        ScalarView::Custom(name) => resolution_error(s, name),
        _ => None,
    }
}

/// The first unresolved reference a type's application projection meets.
pub open spec fn type_rescript_error(s: SchemaView, t: TypeView) -> Option<ErrorView>
    decreases t,
{
    match t {
        TypeView::Single(sc) => scalar_rescript_error(s, sc),
        TypeView::List(element) => type_rescript_error(s, *element),
        TypeView::NonNull(element) => match *element {
            TypeView::Single(sc) => scalar_rescript_error(s, sc),
            TypeView::List(inner) => type_rescript_error(s, *inner),
            TypeView::NonNull(inner) => type_rescript_error(s, *inner),
        },
    }
}

/// The application type of a scalar: built-in scalars map to their
/// application kinds, an entity reference to an identifier, an enum
/// reference to a named variant type in both casings.
pub open spec fn scalar_rescript_ok(s: SchemaView, sc: ScalarView, r: RescriptType) -> bool {
    match sc {
        ScalarView::Id => r is ID,
        ScalarView::Str => r is String,
        ScalarView::Int => r is Int,
        ScalarView::Float => r is Float,
        ScalarView::Boolean => r is Bool,
        ScalarView::BigInt => r is BigInt,
        ScalarView::Bytes => r is String,
        ScalarView::Custom(name) => {
            if resolves_to_entity(s, name) {
                r is ID
            } else if resolves_to_enum(s, name) {
                r matches RescriptType::EnumVariant(c) && c.capitalized@ == spec_capitalized(name)
                    && c.uncapitalized@ == spec_uncapitalized(name)
            } else {
                false
            }
        },
    }
}

/// The application type of a type. Nullability re-derives bottom-up: a type
/// without an outermost non-null wrapper projects to an optional value, and
/// a list element follows the same rule one level in.
pub open spec fn type_rescript_ok(s: SchemaView, t: TypeView, r: RescriptType) -> bool
    decreases t,
{
    match t {
        TypeView::NonNull(element) => match *element {
            TypeView::Single(sc) => scalar_rescript_ok(s, sc, r),
            TypeView::List(inner) => r matches RescriptType::Array(e) && type_rescript_ok(
                s,
                *inner,
                *e,
            ),
            TypeView::NonNull(inner) => type_rescript_ok(s, *inner, r),
        },
        TypeView::Single(sc) => r matches RescriptType::Option(e) && scalar_rescript_ok(
            s,
            sc,
            *e,
        ),
        TypeView::List(inner) => r matches RescriptType::Option(e) && (*e matches
            RescriptType::Array(e2) && type_rescript_ok(s, *inner, *e2)),
    }
}

impl GqlScalar {
    /// The application type of this scalar.
    pub fn to_rescript_type(&self, schema: &Schema) -> (r: Result<RescriptType, SchemaError>)
        ensures
            match r {
                Result::Ok(t) => scalar_rescript_error(schema@, self@) is None
                    && scalar_rescript_ok(schema@, self@, t),
                Result::Err(e) => scalar_rescript_error(schema@, self@) == Some(e@),
            },
    {
        match self {
            GqlScalar::ID => Ok(RescriptType::ID),
            GqlScalar::String => Ok(RescriptType::String),
            GqlScalar::Int => Ok(RescriptType::Int),
            GqlScalar::BigInt => Ok(RescriptType::BigInt),
            GqlScalar::Float => Ok(RescriptType::Float),
            GqlScalar::Bytes => Ok(RescriptType::String),
            GqlScalar::Boolean => Ok(RescriptType::Bool),
            GqlScalar::Custom(name) => match schema.try_get_type_def(name)? {
                TypeDef::Entity(_) => Ok(RescriptType::ID),
                TypeDef::Enum(_) => Ok(
                    RescriptType::EnumVariant(to_capitalized_options(name.as_str())),
                ),
            },
        }
    }
}

impl GqlScalar {
    /// Whether this scalar names an entity.
    pub fn is_entity(&self, schema: &Schema) -> (r: Result<bool, SchemaError>)
        ensures
            match r {
                Result::Ok(b) => scalar_rescript_error(schema@, self@) is None && b == (self@
                    matches ScalarView::Custom(n) && resolves_to_entity(schema@, n)),
                Result::Err(e) => scalar_rescript_error(schema@, self@) == Some(e@),
            },
    {
        match self {
            GqlScalar::Custom(name) => match schema.try_get_type_def(name)? {
                TypeDef::Entity(_) => Ok(true),
                TypeDef::Enum(_) => Ok(false),
            },
            _ => Ok(false),
        }
    }
}

impl UserDefinedFieldType {
    /// The application type of this type.
    pub fn to_rescript_type(&self, schema: &Schema) -> (r: Result<RescriptType, SchemaError>)
        ensures
            match r {
                Result::Ok(t) => type_rescript_error(schema@, self@) is None && type_rescript_ok(
                    schema@,
                    self@,
                    t,
                ),
                Result::Err(e) => type_rescript_error(schema@, self@) == Some(e@),
            },
        decreases *self,
    {
        proof {
            reveal_with_fuel(UserDefinedFieldType::model, 3);
        }
        match self {
            UserDefinedFieldType::NonNullType(element) => match &**element {
                UserDefinedFieldType::Single(sc) => sc.to_rescript_type(schema),
                UserDefinedFieldType::ListType(inner) => Ok(
                    RescriptType::Array(Box::new(inner.to_rescript_type(schema)?)),
                ),
                UserDefinedFieldType::NonNullType(inner) => inner.to_rescript_type(schema),
            },
            UserDefinedFieldType::Single(sc) => Ok(
                RescriptType::Option(Box::new(sc.to_rescript_type(schema)?)),
            ),
            UserDefinedFieldType::ListType(inner) => Ok(
                RescriptType::Option(
                    Box::new(RescriptType::Array(Box::new(inner.to_rescript_type(schema)?))),
                ),
            ),
        }
    }

    /// Whether this type's underlying scalar names an entity.
    pub fn is_entity_field(&self, schema: &Schema) -> (r: Result<bool, SchemaError>)
        ensures
            match r {
                Result::Ok(b) => scalar_rescript_error(schema@, underlying_scalar(self@)) is None
                    && b == (underlying_scalar(self@) matches ScalarView::Custom(n)
                    && resolves_to_entity(schema@, n)),
                Result::Err(e) => scalar_rescript_error(schema@, underlying_scalar(self@)) == Some(
                    e@,
                ),
            },
    {
        self.get_underlying_scalar().is_entity(schema)
    }
}

impl FieldType {
    /// The application type of the declared type this field's type stands
    /// for.
    pub fn to_rescript_type(&self, schema: &Schema) -> (r: Result<RescriptType, SchemaError>)
        ensures
            match r {
                Result::Ok(t) => type_rescript_error(schema@, field_type_as_type(self@)) is None
                    && type_rescript_ok(schema@, field_type_as_type(self@), t),
                Result::Err(e) => type_rescript_error(schema@, field_type_as_type(self@)) == Some(
                    e@,
                ),
            },
    {
        self.to_user_defined_field_type().to_rescript_type(schema)
    }

    /// Whether this field type's underlying scalar names an entity.
    pub fn is_entity_field(&self, schema: &Schema) -> (r: Result<bool, SchemaError>)
        ensures
            match r {
                Result::Ok(b) => scalar_rescript_error(
                    schema@,
                    underlying_scalar(field_type_as_type(self@)),
                ) is None && b == (underlying_scalar(field_type_as_type(self@)) matches
                    ScalarView::Custom(n) && resolves_to_entity(schema@, n)),
                Result::Err(e) => scalar_rescript_error(
                    schema@,
                    underlying_scalar(field_type_as_type(self@)),
                ) == Some(e@),
            },
    {
        self.to_user_defined_field_type().is_entity_field(schema)
    }
}

/// The relational key of a field: a regular field keys by its own name; a
/// derived field keys by its target field's name, with `_id` appended when
/// the target field is itself a reciprocal entity reference.
pub open spec fn relational_key(s: SchemaView, f: FieldView) -> Result<Seq<char>, ErrorView> {
    match f.field_type {
        FieldTypeView::Regular(_) => Ok(f.name),
        FieldTypeView::Derived { entity_name, derived_from_field } => {
            if !has_entity(s, entity_name) {
                Err(ErrorView::UnknownTypeDef { name: entity_name })
            } else {
                let target = entity_named(s, entity_name);
                if !has_field(target, derived_from_field) {
                    Err(
                        ErrorView::DerivedFieldMissing {
                            entity: entity_name,
                            field: derived_from_field,
                        },
                    )
                } else {
                    match underlying_scalar(
                        field_type_as_type(field_named(target, derived_from_field).field_type),
                    ) {
                        ScalarView::Custom(n) => {
                            if resolution_error(s, n) is Some {
                                Err(resolution_error(s, n).unwrap())
                            } else if resolves_to_entity(s, n) {
                                Ok(derived_from_field + "_id"@)
                            } else {
                                Err(
                                    ErrorView::IllegalRelationalKeyType {
                                        entity: entity_name,
                                        field: derived_from_field,
                                    },
                                )
                            }
                        },
                        ScalarView::Id => Ok(derived_from_field),
                        ScalarView::Str => Ok(derived_from_field),
                        _ => Err(
                            ErrorView::IllegalRelationalKeyType {
                                entity: entity_name,
                                field: derived_from_field,
                            },
                        ),
                    }
                }
            }
        },
    }
}

impl Field {
    /// The storage column name that realizes this field's relationship.
    pub fn get_relational_key(&self, schema: &Schema) -> (r: Result<String, SchemaError>)
        ensures
            match r {
                Result::Ok(k) => relational_key(schema@, self@) == Ok::<Seq<char>, ErrorView>(k@),
                Result::Err(e) => relational_key(schema@, self@) == Err::<Seq<char>, ErrorView>(
                    e@,
                ),
            },
    {
        match &self.field_type {
            FieldType::DerivedFromField { derived_from_field, entity_name } => {
                let target = match schema.find_entity(entity_name.as_str()) {
                    None => {
                        return Err(SchemaError::UnknownTypeDef { name: entity_name.clone() });
                    },
                    Some(t) => t,
                };
                let entity_field = match target.find_field(derived_from_field.as_str()) {
                    None => {
                        return Err(
                            SchemaError::DerivedFieldMissing {
                                entity: entity_name.clone(),
                                field: derived_from_field.clone(),
                            },
                        );
                    },
                    Some(f) => f,
                };
                match entity_field.field_type.get_underlying_scalar() {
                    GqlScalar::Custom(name) => match schema.try_get_type_def(&name)? {
                        TypeDef::Entity(_) => {
                            let mut key = derived_from_field.clone();
                            key.append("_id");
                            Ok(key)
                        },
                        TypeDef::Enum(_) => Err(
                            SchemaError::IllegalRelationalKeyType {
                                entity: entity_name.clone(),
                                field: derived_from_field.clone(),
                            },
                        ),
                    },
                    GqlScalar::ID => Ok(derived_from_field.clone()),
                    GqlScalar::String => Ok(derived_from_field.clone()),
                    _ => Err(
                        SchemaError::IllegalRelationalKeyType {
                            entity: entity_name.clone(),
                            field: derived_from_field.clone(),
                        },
                    ),
                }
            },
            FieldType::RegularField(_) => Ok(self.name.clone()),
        }
    }
}


/// The first entity of a plain collection bearing a name.
fn find_entity_in<'a>(entities: &'a Vec<Entity>, name: &str) -> (r: Option<&'a Entity>)
    ensures
        match r {
            Option::Some(e) => has_entity_in(entities@.map_values(|x: Entity| x@), name@) && e@
                == entity_named_in(entities@.map_values(|x: Entity| x@), name@),
            Option::None => !has_entity_in(entities@.map_values(|x: Entity| x@), name@),
        },
{
    let ghost es = entities@.map_values(|x: Entity| x@);
    let mut i: usize = 0;
    while i < entities.len()
        invariant
            i <= entities@.len(),
            es == entities@.map_values(|x: Entity| x@),
            es.len() == entities@.len(),
            forall|j: int| 0 <= j < i ==> es[j].name != name@,
        decreases entities@.len() - i,
    {
        if str_eq(entities[i].name.as_str(), name) {
            proof {
                lemma_first_entity_idx(es, name@, i as int);
            }
            return Some(&entities[i]);
        }
        i += 1;
    }
    proof {
        lemma_first_entity_idx(es, name@, es.len() as int);
    }
    None
}

/// Whether a plain collection holds an enum of a name.
fn enum_exists_in(enums: &Vec<GraphQLEnum>, name: &str) -> (r: bool)
    ensures
        r == has_enum_in(enums@.map_values(|x: GraphQLEnum| x@), name@),
{
    let ghost es = enums@.map_values(|x: GraphQLEnum| x@);
    let mut i: usize = 0;
    while i < enums.len()
        invariant
            i <= enums@.len(),
            es == enums@.map_values(|x: GraphQLEnum| x@),
            es.len() == enums@.len(),
            forall|j: int| 0 <= j < i ==> es[j].name != name@,
        decreases enums@.len() - i,
    {
        if str_eq(enums[i].name.as_str(), name) {
            proof {
                assert(es[i as int].name == name@);
            }
            return true;
        }
        i += 1;
    }
    false
}

/// The forward-related entities of some fields: one pair per field whose
/// underlying scalar names an entity of the collection; a name that is
/// neither an enum of the collection nor such an entity fails. Fields whose
/// scalar is built-in, or whose reference names an enum, contribute
/// nothing.
pub open spec fn related_pairs(
    es: Seq<EntityView>,
    gs: Seq<EnumView>,
    fs: Seq<FieldView>,
) -> Result<Seq<(FieldView, EntityView)>, ErrorView>
    decreases fs.len(),
{
    if fs.len() == 0 {
        Ok(Seq::empty())
    } else {
        let head = fs[0];
        match underlying_scalar(field_type_as_type(head.field_type)) {
            ScalarView::Custom(name) => {
                if has_enum_in(gs, name) {
                    related_pairs(es, gs, fs.drop_first())
                } else if !has_entity_in(es, name) {
                    Err(ErrorView::UnknownTypeDef { name })
                } else {
                    match related_pairs(es, gs, fs.drop_first()) {
                        Ok(t) => Ok(seq![(head, entity_named_in(es, name))] + t),
                        Err(e) => Err(e),
                    }
                }
            },
            _ => related_pairs(es, gs, fs.drop_first()),
        }
    }
}

/// The views of a sequence of field/entity reference pairs.
pub open spec fn pair_views(v: Seq<(&Field, &Entity)>) -> Seq<(FieldView, EntityView)> {
    v.map_values(|p: (&Field, &Entity)| (p.0@, p.1@))
}

impl Entity {
    /// The entities this entity's fields reference forward, paired with the
    /// referencing field, in field order.
    pub fn get_related_entities<'a>(
        &'a self,
        other_entities: &'a Vec<Entity>,
        gql_enums: &Vec<GraphQLEnum>,
    ) -> (r: Result<Vec<(&'a Field, &'a Entity)>, SchemaError>)
        ensures
            match r {
                Result::Ok(v) => related_pairs(
                    other_entities@.map_values(|x: Entity| x@),
                    gql_enums@.map_values(|x: GraphQLEnum| x@),
                    self@.fields,
                ) == Ok::<Seq<(FieldView, EntityView)>, ErrorView>(pair_views(v@)),
                Result::Err(e) => related_pairs(
                    other_entities@.map_values(|x: Entity| x@),
                    gql_enums@.map_values(|x: GraphQLEnum| x@),
                    self@.fields,
                ) == Err::<Seq<(FieldView, EntityView)>, ErrorView>(e@),
            },
    {
        let ghost esv = other_entities@.map_values(|x: Entity| x@);
        let ghost gsv = gql_enums@.map_values(|x: GraphQLEnum| x@);
        let ghost fs = self@.fields;
        let mut out: Vec<(&'a Field, &'a Entity)> = Vec::new();
        let mut i: usize = 0;
        proof {
            assert(fs.skip(0) =~= fs);
            assert(pair_views(out@) =~= Seq::<(FieldView, EntityView)>::empty());
        }
        while i < self.fields.len()
            invariant
                i <= self.fields@.len(),
                esv == other_entities@.map_values(|x: Entity| x@),
                gsv == gql_enums@.map_values(|x: GraphQLEnum| x@),
                fs == self@.fields,
                fs.len() == self.fields@.len(),
                related_pairs(esv, gsv, fs) == (match related_pairs(esv, gsv, fs.skip(i as int)) {
                    Ok(t) => Ok::<Seq<(FieldView, EntityView)>, ErrorView>(pair_views(out@) + t),
                    Err(e) => Err(e),
                }),
            decreases self.fields@.len() - i,
        {
            proof {
                assert(fs.skip(i as int)[0] == fs[i as int]);
                assert(fs.skip(i as int).drop_first() =~= fs.skip(i as int + 1));
            }
            let field = &self.fields[i];
            match field.field_type.get_underlying_scalar() {
                GqlScalar::Custom(name) => {
                    if enum_exists_in(gql_enums, name.as_str()) {
                        // an enum reference is no entity relationship
                    } else {
                        match find_entity_in(other_entities, name.as_str()) {
                            None => {
                                let e = SchemaError::UnknownTypeDef { name };
                                return Err(e);
                            },
                            Some(target) => {
                                let ghost before = pair_views(out@);
                                let ghost pair = (fs[i as int], entity_named_in(esv, name@));
                                out.push((field, target));
                                proof {
                                    assert(pair_views(out@) =~= before.push(pair));
                                    if related_pairs(esv, gsv, fs.skip(i as int + 1)) is Ok {
                                        let t = related_pairs(
                                            esv,
                                            gsv,
                                            fs.skip(i as int + 1),
                                        )->Ok_0;
                                        assert(before + (seq![pair] + t) =~= before.push(pair)
                                            + t);
                                    }
                                }
                            },
                        }
                    }
                },
                _ => {},
            }
            i += 1;
        }
        proof {
            assert(fs.skip(fs.len() as int) =~= Seq::<FieldView>::empty());
            assert(pair_views(out@) + Seq::<(FieldView, EntityView)>::empty() =~= pair_views(
                out@,
            ));
        }
        Ok(out)
    }
}

} // verus!
