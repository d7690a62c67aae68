//! Construction-time checks and the ordered validation pipeline.

use vstd::prelude::*;
use crate::errors::{ErrorView, SchemaError};
use crate::ident::{valid_postgres_name, is_valid_postgres_db_name, str_eq, is_reserved, is_reserved_word, is_reserved_enum_name, is_reserved_enum_name_word};
use crate::field_type::{FieldType, FieldTypeView, GqlScalar, ScalarView, TypeView, UserDefinedFieldType, scalar_display, field_type_as_type, underlying_scalar};
use crate::schema::{Entity, EntityView, EnumView, Field, FieldView, GraphQLEnum, Relationship, RelationshipView, Schema, SchemaView, TypeDef, entity_named, field_named, has_entity, has_enum, has_field, relationships_of, resolves_to_enum};

verus! {

/// The views of a sequence of strings.
pub open spec fn views_of(v: Seq<String>) -> Seq<Seq<char>> {
    v.map_values(|s: String| s@)
}

/// The names that satisfy a predicate, in input order, occurrences kept.
pub open spec fn filtered(names: Seq<Seq<char>>, p: spec_fn(Seq<char>) -> bool) -> Seq<Seq<char>>
    decreases names.len(),
{
    if names.len() == 0 {
        Seq::empty()
    } else {
        filtered(names.drop_last(), p) + if p(names.last()) {
            seq![names.last()]
        } else {
            Seq::empty()
        }
    }
}

/// A filter finds nothing exactly when no name satisfies the predicate.
pub proof fn lemma_filtered_empty(names: Seq<Seq<char>>, p: spec_fn(Seq<char>) -> bool)
    ensures
        filtered(names, p).len() == 0 <==> (forall|i: int|
            0 <= i < names.len() ==> !p(names[i])),
    decreases names.len(),
{
    if names.len() > 0 {
        lemma_filtered_empty(names.drop_last(), p);
        assert(forall|i: int| 0 <= i < names.len() - 1 ==> names.drop_last()[i] == names[i]);
        assert(names.last() == names[names.len() - 1]);
    }
}

/// The names that repeat an earlier occurrence, in input order.
pub open spec fn duplicate_names(names: Seq<Seq<char>>) -> Seq<Seq<char>>
    decreases names.len(),
{
    if names.len() == 0 {
        Seq::empty()
    } else {
        duplicate_names(names.drop_last()) + if names.drop_last().contains(names.last()) {
            seq![names.last()]
        } else {
            Seq::empty()
        }
    }
}

/// No duplicates are found exactly when the names are pairwise distinct.
pub proof fn lemma_duplicate_names_empty(names: Seq<Seq<char>>)
    ensures
        duplicate_names(names).len() == 0 <==> (forall|i: int, j: int|
            0 <= i < j < names.len() ==> names[i] != names[j]),
    decreases names.len(),
{
    if names.len() > 0 {
        lemma_duplicate_names_empty(names.drop_last());
        assert(forall|i: int| 0 <= i < names.len() - 1 ==> names.drop_last()[i] == names[i]);
        assert(names.last() == names[names.len() - 1]);
        if duplicate_names(names).len() == 0 {
            assert(!names.drop_last().contains(names.last()));
            assert forall|i: int, j: int| 0 <= i < j < names.len() implies names[i] != names[j] by {
                if j == names.len() - 1 {
                    assert(names.drop_last()[i] == names[i]);
                }
            }
        } else {
            if duplicate_names(names.drop_last()).len() > 0 {
            } else {
                assert(names.drop_last().contains(names.last()));
                let i = choose|i: int|
                    0 <= i < names.drop_last().len() && names.drop_last()[i] == names.last();
                assert(names[i] == names[names.len() - 1]);
            }
        }
    }
}

/// Collects the names that repeat an earlier occurrence.
fn collect_duplicates(names: &Vec<String>) -> (r: Vec<String>)
    ensures
        views_of(r@) == duplicate_names(views_of(names@)),
{
    let ghost all = views_of(names@);
    let mut dups: Vec<String> = Vec::new();
    let mut i: usize = 0;
    proof {
        assert(views_of(dups@) =~= duplicate_names(all.take(0)));
    }
    while i < names.len()
        invariant
            i <= names@.len(),
            all == views_of(names@),
            all.len() == names@.len(),
            views_of(dups@) == duplicate_names(all.take(i as int)),
        decreases names@.len() - i,
    {
        let mut seen = false;
        let mut j: usize = 0;
        while j < i
            invariant
                j <= i < names@.len(),
                all == views_of(names@),
                all.len() == names@.len(),
                seen <==> (exists|k: int| 0 <= k < j && all[k] == all[i as int]),
            decreases i - j,
        {
            let names_equal = str_eq(names[j].as_str(), names[i].as_str());
            proof {
                assert(all[j as int] == names@[j as int]@);
                assert(all[i as int] == names@[i as int]@);
            }
            if names_equal {
                seen = true;
            }
            j += 1;
        }
        proof {
            assert(all.take(i as int + 1).drop_last() =~= all.take(i as int));
            assert(all.take(i as int + 1).last() == all[i as int]);
            assert(seen <==> all.take(i as int).contains(all[i as int])) by {
                if seen {
                    let k0 = choose|k0: int| 0 <= k0 < i && all[k0] == all[i as int];
                    assert(all.take(i as int)[k0] == all[i as int]);
                }
                if all.take(i as int).contains(all[i as int]) {
                    let k = choose|k: int|
                        0 <= k < all.take(i as int).len()
                            && all.take(i as int)[k] == all[i as int];
                    assert(all[k] == all[i as int]);
                }
            }
        }
        if seen {
            dups.push(names[i].clone());
            proof {
                assert(views_of(dups@) =~= duplicate_names(all.take(i as int + 1)));
            }
        } else {
            proof {
                assert(views_of(dups@) =~= duplicate_names(all.take(i as int + 1)));
            }
        }
        i += 1;
    }
    proof {
        assert(all.take(all.len() as int) =~= all);
    }
    dups
}

/// Collects the names that break the storage-identifier grammar.
fn collect_invalid_storage_names(names: &Vec<String>) -> (r: Vec<String>)
    ensures
        views_of(r@) == filtered(views_of(names@), |n: Seq<char>| !valid_postgres_name(n)),
{
    let ghost all = views_of(names@);
    let ghost p = |n: Seq<char>| !valid_postgres_name(n);
    let mut bad: Vec<String> = Vec::new();
    let mut i: usize = 0;
    proof {
        assert(views_of(bad@) =~= filtered(all.take(0), p));
    }
    while i < names.len()
        invariant
            i <= names@.len(),
            all == views_of(names@),
            all.len() == names@.len(),
            p == (|n: Seq<char>| !valid_postgres_name(n)),
            views_of(bad@) == filtered(all.take(i as int), p),
        decreases names@.len() - i,
    {
        proof {
            assert(all.take(i as int + 1).drop_last() =~= all.take(i as int));
            assert(all.take(i as int + 1).last() == all[i as int]);
        }
        if !is_valid_postgres_db_name(names[i].as_str()) {
            bad.push(names[i].clone());
            proof {
                assert(views_of(bad@) =~= filtered(all.take(i as int + 1), p));
            }
        } else {
            proof {
                assert(views_of(bad@) =~= filtered(all.take(i as int + 1), p));
            }
        }
        i += 1;
    }
    proof {
        assert(all.take(all.len() as int) =~= all);
    }
    bad
}

/// The first failure among an enum's construction checks: duplicate values,
/// then names outside the storage-identifier grammar (the enum's own name
/// checked first, then each value).
pub open spec fn enum_new_error(name: Seq<char>, values: Seq<Seq<char>>) -> Option<ErrorView> {
    let dups = duplicate_names(values);
    if dups.len() > 0 {
        Some(ErrorView::DuplicateEnumValues { enum_name: name, values: dups })
    } else {
        let invalid = filtered(seq![name] + values, |n: Seq<char>| !valid_postgres_name(n));
        if invalid.len() > 0 {
            Some(ErrorView::InvalidStorageNames { names: invalid })
        } else {
            None
        }
    }
}

impl GraphQLEnum {
    /// Builds an enum, refusing duplicate values and names outside the
    /// storage-identifier grammar.
    pub fn new(name: String, values: Vec<String>) -> (r: Result<GraphQLEnum, SchemaError>)
        ensures
            match r {
                Result::Ok(g) => g@.name == name@ && g@.values == views_of(values@)
                    && enum_new_error(name@, views_of(values@)) is None,
                Result::Err(e) => Some(e@) == enum_new_error(name@, views_of(values@)),
            },
    {
        let dups = collect_duplicates(&values);
        if dups.len() > 0 {
            proof {
                assert(views_of(dups@).len() > 0);
            }
            return Err(SchemaError::DuplicateEnumValues { enum_name: name, values: dups });
        }
        let mut to_check: Vec<String> = Vec::new();
        to_check.push(name.clone());
        let mut i: usize = 0;
        while i < values.len()
            invariant
                i <= values@.len(),
                to_check@.len() == i + 1,
                to_check@[0]@ == name@,
                forall|j: int| 0 <= j < i ==> to_check@[j + 1]@ == values@[j]@,
            decreases values@.len() - i,
        {
            to_check.push(values[i].clone());
            i += 1;
        }
        proof {
            assert(views_of(to_check@) =~= seq![name@] + views_of(values@));
        }
        let invalid = collect_invalid_storage_names(&to_check);
        if invalid.len() > 0 {
            proof {
                assert(views_of(invalid@).len() > 0);
            }
            return Err(SchemaError::InvalidStorageNames { names: invalid });
        }
        proof {
            assert(views_of(invalid@).len() == 0);
            assert(views_of(dups@).len() == 0);
        }
        Ok(GraphQLEnum { name, values })
    }
}

/// The failure of an entity's construction check: duplicate field names.
pub open spec fn entity_new_error(name: Seq<char>, field_names: Seq<Seq<char>>) -> Option<
    ErrorView,
> {
    let dups = duplicate_names(field_names);
    if dups.len() > 0 {
        Some(ErrorView::DuplicateFieldNames { entity: name, names: dups })
    } else {
        None
    }
}

/// The field names of a sequence of fields.
pub open spec fn field_names_of(fs: Seq<Field>) -> Seq<Seq<char>> {
    fs.map_values(|f: Field| f.name@)
}

impl Entity {
    /// Builds an entity, refusing duplicate field names.
    pub fn new(name: String, fields: Vec<Field>) -> (r: Result<Entity, SchemaError>)
        ensures
            match r {
                Result::Ok(e) => e@.name == name@ && e@.fields == fields@.map_values(
                    |f: Field| f@,
                ) && entity_new_error(name@, field_names_of(fields@)) is None,
                Result::Err(e) => Some(e@) == entity_new_error(name@, field_names_of(fields@)),
            },
    {
        let mut names: Vec<String> = Vec::new();
        let mut i: usize = 0;
        while i < fields.len()
            invariant
                i <= fields@.len(),
                names@.len() == i,
                forall|j: int| 0 <= j < i ==> names@[j]@ == fields@[j].name@,
            decreases fields@.len() - i,
        {
            names.push(fields[i].name.clone());
            i += 1;
        }
        proof {
            assert(views_of(names@) =~= field_names_of(fields@));
        }
        let dups = collect_duplicates(&names);
        if dups.len() > 0 {
            proof {
                assert(views_of(dups@).len() > 0);
            }
            return Err(SchemaError::DuplicateFieldNames { entity: name, names: dups });
        }
        proof {
            assert(views_of(dups@).len() == 0);
        }
        Ok(Entity { name, fields })
    }
}


/// The first illegality in a type's shape, in declaration order: a list may
/// hold only a non-null element that is not an entity reference, and
/// non-null wrappers may not nest.
pub open spec fn shape_error(s: SchemaView, t: TypeView) -> Option<ErrorView>
    decreases t,
{
    match t {
        TypeView::Single(_) => None,
        TypeView::List(element) => match *element {
            TypeView::NonNull(inner) => match *inner {
                TypeView::Single(sc) => match sc {
                    ScalarView::Custom(name) => {
                        if !has_entity(s, name) && !has_enum(s, name) {
                            Some(ErrorView::UnknownTypeDef { name })
                        } else if has_entity(s, name) && has_enum(s, name) {
                            Some(ErrorView::AmbiguousTypeDef { name })
                        } else if has_entity(s, name) {
                            Some(ErrorView::ArrayOfEntities { entity: name })
                        } else {
                            shape_error(s, *element)
                        }
                    },
                    _ => shape_error(s, *element),
                },
                _ => shape_error(s, *element),
            },
            TypeView::Single(sc) => Some(
                ErrorView::NullableScalarInList { scalar: scalar_display(sc) },
            ),
            TypeView::List(_) => Some(ErrorView::NullableListInList),
        },
        TypeView::NonNull(element) => match *element {
            TypeView::NonNull(_) => Some(ErrorView::NestedNonNull),
            _ => shape_error(s, *element),
        },
    }
}

impl UserDefinedFieldType {
    /// Checks this type's shape against the list and non-null composition
    /// rules.
    pub fn validate_type(&self, schema: &Schema) -> (r: Result<(), SchemaError>)
        ensures
            match r {
                Result::Ok(_) => shape_error(schema@, self@) is None,
                Result::Err(e) => shape_error(schema@, self@) == Some(e@),
            },
        decreases *self,
    {
        proof {
            reveal_with_fuel(UserDefinedFieldType::model, 4);
        }
        match self {
            UserDefinedFieldType::Single(_) => Ok(()),
            UserDefinedFieldType::ListType(element) => match &**element {
                UserDefinedFieldType::NonNullType(inner) => {
                    let entity_in_list: Option<&String> = match &**inner {
                        UserDefinedFieldType::Single(sc) => match sc {
                            GqlScalar::Custom(name) => {
                                match schema.try_get_type_def(name)? {
                                    TypeDef::Entity(_) => Some(name),
                                    TypeDef::Enum(_) => None,
                                }
                            },
                            _ => None,
                        },
                        _ => None,
                    };
                    match entity_in_list {
                        Some(name) => Err(
                            SchemaError::ArrayOfEntities { entity: name.clone() },
                        ),
                        None => element.validate_type(schema),
                    }
                },
                UserDefinedFieldType::Single(sc) => Err(
                    SchemaError::NullableScalarInList { scalar: sc.to_string() },
                ),
                UserDefinedFieldType::ListType(_) => Err(SchemaError::NullableListInList),
            },
            UserDefinedFieldType::NonNullType(element) => match &**element {
                UserDefinedFieldType::NonNullType(_) => Err(SchemaError::NestedNonNull),
                _ => element.validate_type(schema),
            },
        }
    }
}

/// The shape error of a field's type; a derived field's shape was fixed
/// when the field was built.
pub open spec fn field_shape_error(s: SchemaView, ft: FieldTypeView) -> Option<ErrorView> {
    match ft {
        FieldTypeView::Derived { .. } => None,
        FieldTypeView::Regular(t) => shape_error(s, t),
    }
}

impl FieldType {
    /// Checks this field type's shape; a derived field passes by
    /// construction.
    pub fn validate_type(&self, schema: &Schema) -> (r: Result<(), SchemaError>)
        ensures
            match r {
                Result::Ok(_) => field_shape_error(schema@, self@) is None,
                Result::Err(e) => field_shape_error(schema@, self@) == Some(e@),
            },
    {
        match self {
            FieldType::DerivedFromField { .. } => Ok(()),
            FieldType::RegularField(t) => t.validate_type(schema),
        }
    }
}

impl Field {
    /// Checks this field's type shape.
    pub fn validate_field_type(&self, schema: &Schema) -> (r: Result<(), SchemaError>)
        ensures
            match r {
                Result::Ok(_) => field_shape_error(schema@, self@.field_type) is None,
                Result::Err(e) => field_shape_error(schema@, self@.field_type) == Some(e@),
            },
    {
        self.field_type.validate_type(schema)
    }
}

/// The first shape error among an entity's fields.
pub open spec fn fields_shape_error(s: SchemaView, fs: Seq<FieldView>) -> Option<ErrorView>
    decreases fs.len(),
{
    if fs.len() == 0 {
        None
    } else {
        match field_shape_error(s, fs[0].field_type) {
            Some(e) => Some(e),
            None => fields_shape_error(s, fs.drop_first()),
        }
    }
}

/// The first shape error among the fields of a sequence of entities.
pub open spec fn entities_shape_error(s: SchemaView, es: Seq<EntityView>) -> Option<ErrorView>
    decreases es.len(),
{
    if es.len() == 0 {
        None
    } else {
        match fields_shape_error(s, es[0].fields) {
            Some(e) => Some(e),
            None => entities_shape_error(s, es.drop_first()),
        }
    }
}

/// The first shape error in the whole schema.
pub open spec fn shapes_error(s: SchemaView) -> Option<ErrorView> {
    entities_shape_error(s, s.entities)
}

impl Entity {
    /// Checks the shape of every field of this entity, reporting the first
    /// offence.
    pub fn validate_field_types(&self, schema: &Schema) -> (r: Result<(), SchemaError>)
        ensures
            match r {
                Result::Ok(_) => fields_shape_error(schema@, self@.fields) is None,
                Result::Err(e) => fields_shape_error(schema@, self@.fields) == Some(e@),
            },
    {
        let ghost fs = self@.fields;
        let mut i: usize = 0;
        proof {
            assert(fs.skip(0) =~= fs);
        }
        while i < self.fields.len()
            invariant
                i <= self.fields@.len(),
                fs == self@.fields,
                fs.len() == self.fields@.len(),
                fields_shape_error(schema@, fs) == fields_shape_error(schema@, fs.skip(i as int)),
            decreases self.fields@.len() - i,
        {
            proof {
                assert(fs.skip(i as int)[0] == fs[i as int]);
            }
            let outcome = self.fields[i].validate_field_type(schema);
            match outcome {
                Err(e) => {
                    return Err(e);
                },
                Ok(_) => {},
            }
            proof {
                assert(fs.skip(i as int).drop_first() =~= fs.skip(i as int + 1));
            }
            i += 1;
        }
        proof {
            assert(fs.skip(fs.len() as int) =~= Seq::<FieldView>::empty());
        }
        Ok(())
    }
}

impl Schema {
    /// Checks the shape of every field of every entity, reporting the first
    /// offence.
    pub fn validate_entity_field_types(&self) -> (r: Result<(), SchemaError>)
        ensures
            match r {
                Result::Ok(_) => shapes_error(self@) is None,
                Result::Err(e) => shapes_error(self@) == Some(e@),
            },
    {
        let ghost es = self@.entities;
        let mut i: usize = 0;
        proof {
            assert(es.skip(0) =~= es);
        }
        while i < self.entities.len()
            invariant
                i <= self.entities@.len(),
                es == self@.entities,
                es.len() == self.entities@.len(),
                entities_shape_error(self@, es) == entities_shape_error(
                    self@,
                    es.skip(i as int),
                ),
            decreases self.entities@.len() - i,
        {
            proof {
                assert(es.skip(i as int)[0] == es[i as int]);
            }
            let outcome = self.entities[i].validate_field_types(self);
            match outcome {
                Err(e) => {
                    return Err(e);
                },
                Ok(_) => {},
            }
            proof {
                assert(es.skip(i as int).drop_first() =~= es.skip(i as int + 1));
            }
            i += 1;
        }
        proof {
            assert(es.skip(es.len() as int) =~= Seq::<EntityView>::empty());
        }
        Ok(())
    }
}


/// How resolving a name fails, where it does: the name may be missing, or
/// claimed by both namespaces.
pub open spec fn resolution_error(s: SchemaView, name: Seq<char>) -> Option<ErrorView> {
    if !has_entity(s, name) && !has_enum(s, name) {
        Some(ErrorView::UnknownTypeDef { name })
    } else if has_entity(s, name) && has_enum(s, name) {
        Some(ErrorView::AmbiguousTypeDef { name })
    } else {
        None
    }
}

/// The failure of one relationship edge declared by the entity of the given
/// name: a forward reference must resolve; a derived edge must target an
/// entity, name a field on it, and that field must read as an ID, a String,
/// or a reciprocal reference back to the declaring entity.
pub open spec fn rel_error(
    s: SchemaView,
    entity_name: Seq<char>,
    r: RelationshipView,
) -> Option<ErrorView> {
    match r {
        RelationshipView::TypeDef { name } => resolution_error(s, name),
        RelationshipView::DerivedFrom { name, derived_from_field } => {
            if resolution_error(s, name) is Some {
                resolution_error(s, name)
            } else if resolves_to_enum(s, name) {
                Some(ErrorView::DerivedFromEnum { enum_name: name, field: derived_from_field })
            } else {
                let target = entity_named(s, name);
                if !has_field(target, derived_from_field) {
                    Some(
                        ErrorView::DerivedFieldMissing { entity: name, field: derived_from_field },
                    )
                } else {
                    match underlying_scalar(
                        field_type_as_type(field_named(target, derived_from_field).field_type),
                    ) {
                        ScalarView::Custom(reciprocal) => if reciprocal == entity_name {
                            None
                        } else {
                            Some(
                                ErrorView::IllegalRelationalKeyType {
                                    entity: name,
                                    field: derived_from_field,
                                },
                            )
                        },
                        ScalarView::Id => None,
                        ScalarView::Str => None,
                        _ => Some(
                            ErrorView::IllegalRelationalKeyType {
                                entity: name,
                                field: derived_from_field,
                            },
                        ),
                    }
                }
            }
        },
    }
}

/// The first failing relationship among several.
pub open spec fn rels_error(
    s: SchemaView,
    entity_name: Seq<char>,
    rs: Seq<RelationshipView>,
) -> Option<ErrorView>
    decreases rs.len(),
{
    if rs.len() == 0 {
        None
    } else {
        match rel_error(s, entity_name, rs[0]) {
            Some(e) => Some(e),
            None => rels_error(s, entity_name, rs.drop_first()),
        }
    }
}

/// The first failing relationship among those of a sequence of entities.
pub open spec fn entities_rels_error(s: SchemaView, es: Seq<EntityView>) -> Option<ErrorView>
    decreases es.len(),
{
    if es.len() == 0 {
        None
    } else {
        match rels_error(s, es[0].name, relationships_of(es[0])) {
            Some(e) => Some(e),
            None => entities_rels_error(s, es.drop_first()),
        }
    }
}

/// The first failing relationship in the whole schema.
pub open spec fn related_error(s: SchemaView) -> Option<ErrorView> {
    entities_rels_error(s, s.entities)
}

impl Schema {
    /// Checks every relationship edge of every entity, reporting the first
    /// offence.
    pub fn check_related_type_defs_exist(&self) -> (r: Result<(), SchemaError>)
        ensures
            match r {
                Result::Ok(_) => related_error(self@) is None,
                Result::Err(e) => related_error(self@) == Some(e@),
            },
    {
        let ghost es = self@.entities;
        let mut i: usize = 0;
        proof {
            assert(es.skip(0) =~= es);
        }
        while i < self.entities.len()
            invariant
                i <= self.entities@.len(),
                es == self@.entities,
                es.len() == self.entities@.len(),
                entities_rels_error(self@, es) == entities_rels_error(self@, es.skip(i as int)),
            decreases self.entities@.len() - i,
        {
            proof {
                assert(es.skip(i as int)[0] == es[i as int]);
            }
            let entity = &self.entities[i];
            let rels = entity.get_relationships();
            let ghost rv = rels@.map_values(|rel: Relationship| rel@);
            let ghost ename = es[i as int].name;
            proof {
                assert(relationships_of(es[i as int]) == rv);
            }
            let mut j: usize = 0;
            proof {
                assert(rv.skip(0) =~= rv);
            }
            while j < rels.len()
                invariant
                    j <= rels@.len(),
                    rv == rels@.map_values(|rel: Relationship| rel@),
                    rv.len() == rels@.len(),
                    ename == entity@.name,
                    entity == &self.entities@[i as int],
                    i < self.entities@.len(),
                    es == self@.entities,
                    es.len() == self.entities@.len(),
                    relationships_of(es[i as int]) == rv,
                    entities_rels_error(self@, es) == entities_rels_error(self@, es.skip(i as int)),
                    rels_error(self@, ename, rv) == rels_error(self@, ename, rv.skip(j as int)),
                decreases rels@.len() - j,
            {
                proof {
                    assert(rv.skip(j as int)[0] == rv[j as int]);
                    assert(rv[j as int] == rels@[j as int]@);
                }
                match &rels[j] {
                    Relationship::TypeDef { name } => {
                        let type_def = self.try_get_type_def(name);
                        match type_def {
                            Err(e) => {
                                proof {
                                    assert(rel_error(self@, ename, rv[j as int]) == Some(e@));
                                    assert(entities_rels_error(self@, es.skip(i as int)) == Some(
                                        e@,
                                    ));
                                }
                                return Err(e);
                            },
                            Ok(_) => {},
                        }
                    },
                    Relationship::DerivedFrom { name, derived_from_field } => {
                        let type_def = match self.try_get_type_def(name) {
                            Err(e) => {
                                proof {
                                    assert(rel_error(self@, ename, rv[j as int]) == Some(e@));
                                    assert(entities_rels_error(self@, es.skip(i as int)) == Some(
                                        e@,
                                    ));
                                }
                                return Err(e);
                            },
                            Ok(td) => td,
                        };
                        match type_def {
                            TypeDef::Enum(_) => {
                                let e = SchemaError::DerivedFromEnum {
                                    enum_name: name.clone(),
                                    field: derived_from_field.clone(),
                                };
                                proof {
                                    assert(rel_error(self@, ename, rv[j as int]) == Some(e@));
                                    assert(entities_rels_error(self@, es.skip(i as int)) == Some(
                                        e@,
                                    ));
                                }
                                return Err(e);
                            },
                            TypeDef::Entity(derived_entity) => {
                                match derived_entity.find_field(derived_from_field.as_str()) {
                                    None => {
                                        let e = SchemaError::DerivedFieldMissing {
                                            entity: name.clone(),
                                            field: derived_from_field.clone(),
                                        };
                                        proof {
                                            assert(rel_error(self@, ename, rv[j as int]) == Some(
                                                e@,
                                            ));
                                            assert(entities_rels_error(
                                                self@,
                                                es.skip(i as int),
                                            ) == Some(e@));
                                        }
                                        return Err(e);
                                    },
                                    Some(field) => {
                                        match field.field_type.get_underlying_scalar() {
                                            GqlScalar::Custom(reciprocal) => {
                                                if !str_eq(
                                                    reciprocal.as_str(),
                                                    entity.name.as_str(),
                                                ) {
                                                    let e = SchemaError::IllegalRelationalKeyType {
                                                        entity: name.clone(),
                                                        field: derived_from_field.clone(),
                                                    };
                                                    proof {
                                                        assert(rel_error(
                                                            self@,
                                                            ename,
                                                            rv[j as int],
                                                        ) == Some(e@));
                                                        assert(entities_rels_error(
                                                            self@,
                                                            es.skip(i as int),
                                                        ) == Some(e@));
                                                    }
                                                    return Err(e);
                                                }
                                            },
                                            GqlScalar::ID => {},
                                            GqlScalar::String => {},
                                            _ => {
                                                let e = SchemaError::IllegalRelationalKeyType {
                                                    entity: name.clone(),
                                                    field: derived_from_field.clone(),
                                                };
                                                proof {
                                                    assert(rel_error(self@, ename, rv[j as int])
                                                        == Some(e@));
                                                    assert(entities_rels_error(
                                                        self@,
                                                        es.skip(i as int),
                                                    ) == Some(e@));
                                                }
                                                return Err(e);
                                            },
                                        }
                                    },
                                }
                            },
                        }
                    },
                }
                proof {
                    assert(rel_error(self@, ename, rv[j as int]) is None);
                    assert(rv.skip(j as int).drop_first() =~= rv.skip(j as int + 1));
                }
                j += 1;
            }
            proof {
                assert(rv.skip(rv.len() as int) =~= Seq::<RelationshipView>::empty());
                assert(relationships_of(es[i as int]) == rv);
                assert(es.skip(i as int).drop_first() =~= es.skip(i as int + 1));
            }
            i += 1;
        }
        proof {
            assert(es.skip(es.len() as int) =~= Seq::<EntityView>::empty());
        }
        Ok(())
    }
}


/// The enum type names, in declaration order.
pub open spec fn enum_names_seq(s: SchemaView) -> Seq<Seq<char>> {
    s.enums.map_values(|e: EnumView| e.name)
}

/// The entity names, in declaration order.
pub open spec fn entity_names_seq(s: SchemaView) -> Seq<Seq<char>> {
    s.entities.map_values(|e: EntityView| e.name)
}

/// Every enum value of a sequence of enums, in declaration order.
pub open spec fn enum_values_concat(es: Seq<EnumView>) -> Seq<Seq<char>>
    decreases es.len(),
{
    if es.len() == 0 {
        Seq::empty()
    } else {
        enum_values_concat(es.drop_last()) + es.last().values
    }
}

/// Every field name of a sequence of entities, in declaration order.
pub open spec fn field_names_concat(es: Seq<EntityView>) -> Seq<Seq<char>>
    decreases es.len(),
{
    if es.len() == 0 {
        Seq::empty()
    } else {
        field_names_concat(es.drop_last()) + es.last().fields.map_values(|f: FieldView| f.name)
    }
}

/// Every name a schema binds, in the order the reserved-word pass reads
/// them: enum type names, enum values, entity names, field names.
pub open spec fn schema_names(s: SchemaView) -> Seq<Seq<char>> {
    enum_names_seq(s) + enum_values_concat(s.enums) + entity_names_seq(s) + field_names_concat(
        s.entities,
    )
}

/// The enum type names that are framework-internal.
pub open spec fn reserved_enum_offenders(s: SchemaView) -> Seq<Seq<char>> {
    filtered(enum_names_seq(s), |n: Seq<char>| is_reserved_enum_name(n))
}

/// The schema names that are reserved words.
pub open spec fn reserved_word_offenders(s: SchemaView) -> Seq<Seq<char>> {
    filtered(schema_names(s), |n: Seq<char>| is_reserved(n))
}

/// The enum type names that an entity also bears.
pub open spec fn namespace_collisions(s: SchemaView) -> Seq<Seq<char>> {
    filtered(enum_names_seq(s), |n: Seq<char>| has_entity(s, n))
}

/// The schema names that break the storage-identifier grammar.
pub open spec fn invalid_name_offenders(s: SchemaView) -> Seq<Seq<char>> {
    filtered(schema_names(s), |n: Seq<char>| !valid_postgres_name(n))
}

/// The first failure of the ordered validation pipeline: reserved enum
/// names, then reserved words anywhere, then enum/entity name collisions,
/// then names outside the storage-identifier grammar, then unresolved or
/// ill-formed relationships, then illegal type shapes. Later passes never
/// run once an earlier one has failed.
pub open spec fn validate_error(s: SchemaView) -> Option<ErrorView> {
    if reserved_enum_offenders(s).len() > 0 {
        Some(ErrorView::ReservedEnumNames { names: reserved_enum_offenders(s) })
    } else if reserved_word_offenders(s).len() > 0 {
        Some(ErrorView::ReservedWords { names: reserved_word_offenders(s) })
    } else if namespace_collisions(s).len() > 0 {
        Some(ErrorView::DuplicateTypeDefNames { names: namespace_collisions(s) })
    } else if invalid_name_offenders(s).len() > 0 {
        Some(ErrorView::InvalidStorageNames { names: invalid_name_offenders(s) })
    } else if related_error(s) is Some {
        related_error(s)
    } else {
        shapes_error(s)
    }
}

/// Collects the names that are reserved words.
fn collect_reserved_words(names: &Vec<String>) -> (r: Vec<String>)
    ensures
        views_of(r@) == filtered(views_of(names@), |n: Seq<char>| is_reserved(n)),
{
    let ghost all = views_of(names@);
    let ghost p = |n: Seq<char>| is_reserved(n);
    let mut bad: Vec<String> = Vec::new();
    let mut i: usize = 0;
    proof {
        assert(views_of(bad@) =~= filtered(all.take(0), p));
    }
    while i < names.len()
        invariant
            i <= names@.len(),
            all == views_of(names@),
            all.len() == names@.len(),
            p == (|n: Seq<char>| is_reserved(n)),
            views_of(bad@) == filtered(all.take(i as int), p),
        decreases names@.len() - i,
    {
        proof {
            assert(all.take(i as int + 1).drop_last() =~= all.take(i as int));
            assert(all.take(i as int + 1).last() == all[i as int]);
        }
        if is_reserved_word(names[i].as_str()) {
            bad.push(names[i].clone());
        }
        proof {
            assert(views_of(bad@) =~= filtered(all.take(i as int + 1), p));
        }
        i += 1;
    }
    proof {
        assert(all.take(all.len() as int) =~= all);
    }
    bad
}

/// Collects the names that are framework-internal enum names.
fn collect_reserved_enum_names(names: &Vec<String>) -> (r: Vec<String>)
    ensures
        views_of(r@) == filtered(views_of(names@), |n: Seq<char>| is_reserved_enum_name(n)),
{
    let ghost all = views_of(names@);
    let ghost p = |n: Seq<char>| is_reserved_enum_name(n);
    let mut bad: Vec<String> = Vec::new();
    let mut i: usize = 0;
    proof {
        assert(views_of(bad@) =~= filtered(all.take(0), p));
    }
    while i < names.len()
        invariant
            i <= names@.len(),
            all == views_of(names@),
            all.len() == names@.len(),
            p == (|n: Seq<char>| is_reserved_enum_name(n)),
            views_of(bad@) == filtered(all.take(i as int), p),
        decreases names@.len() - i,
    {
        proof {
            assert(all.take(i as int + 1).drop_last() =~= all.take(i as int));
            assert(all.take(i as int + 1).last() == all[i as int]);
        }
        if is_reserved_enum_name_word(names[i].as_str()) {
            bad.push(names[i].clone());
        }
        proof {
            assert(views_of(bad@) =~= filtered(all.take(i as int + 1), p));
        }
        i += 1;
    }
    proof {
        assert(all.take(all.len() as int) =~= all);
    }
    bad
}

impl Schema {
    /// The names of all enums, in declaration order.
    fn get_all_enum_type_names(&self) -> (r: Vec<String>)
        ensures
            views_of(r@) == enum_names_seq(self@),
    {
        let mut names: Vec<String> = Vec::new();
        let mut i: usize = 0;
        while i < self.enums.len()
            invariant
                i <= self.enums@.len(),
                names@.len() == i,
                forall|j: int| 0 <= j < i ==> names@[j]@ == self@.enums[j].name,
            decreases self.enums@.len() - i,
        {
            names.push(self.enums[i].name.clone());
            i += 1;
        }
        proof {
            assert(views_of(names@) =~= enum_names_seq(self@));
        }
        names
    }

    /// Every value of every enum, in declaration order.
    fn get_all_enum_values(&self) -> (r: Vec<String>)
        ensures
            views_of(r@) == enum_values_concat(self@.enums),
    {
        let ghost es = self@.enums;
        let mut values: Vec<String> = Vec::new();
        let mut i: usize = 0;
        proof {
            assert(views_of(values@) =~= enum_values_concat(es.take(0)));
        }
        while i < self.enums.len()
            invariant
                i <= self.enums@.len(),
                es == self@.enums,
                es.len() == self.enums@.len(),
                views_of(values@) == enum_values_concat(es.take(i as int)),
            decreases self.enums@.len() - i,
        {
            let current = &self.enums[i];
            let ghost pre = values@;
            let mut j: usize = 0;
            while j < current.values.len()
                invariant
                    j <= current.values@.len(),
                    i < self.enums@.len(),
                    es == self@.enums,
                    es.len() == self.enums@.len(),
                    current == &self.enums@[i as int],
                    current@.values.len() == current.values@.len(),
                    views_of(pre) == enum_values_concat(es.take(i as int)),
                    values@.len() == pre.len() + j,
                    forall|m: int| 0 <= m < pre.len() ==> values@[m] == pre[m],
                    forall|m: int| 0 <= m < j ==> values@[pre.len() + m]@ == current.values@[m]@,
                decreases current.values@.len() - j,
            {
                values.push(current.values[j].clone());
                j += 1;
            }
            proof {
                assert(views_of(values@) =~= views_of(pre) + current@.values);
                assert(es.take(i as int + 1).drop_last() =~= es.take(i as int));
                assert(es.take(i as int + 1).last() == es[i as int]);
                assert(es[i as int] == current@);
                assert(views_of(values@) =~= enum_values_concat(es.take(i as int + 1)));
            }
            i += 1;
        }
        proof {
            assert(es.take(es.len() as int) =~= es);
        }
        values
    }

    /// The names of all entities, in declaration order.
    fn get_all_entity_type_names(&self) -> (r: Vec<String>)
        ensures
            views_of(r@) == entity_names_seq(self@),
    {
        let mut names: Vec<String> = Vec::new();
        let mut i: usize = 0;
        while i < self.entities.len()
            invariant
                i <= self.entities@.len(),
                names@.len() == i,
                forall|j: int| 0 <= j < i ==> names@[j]@ == self@.entities[j].name,
            decreases self.entities@.len() - i,
        {
            names.push(self.entities[i].name.clone());
            i += 1;
        }
        proof {
            assert(views_of(names@) =~= entity_names_seq(self@));
        }
        names
    }

    /// Every field name of every entity, in declaration order.
    fn get_all_entity_field_names(&self) -> (r: Vec<String>)
        ensures
            views_of(r@) == field_names_concat(self@.entities),
    {
        let ghost es = self@.entities;
        let mut names: Vec<String> = Vec::new();
        let mut i: usize = 0;
        proof {
            assert(views_of(names@) =~= field_names_concat(es.take(0)));
        }
        while i < self.entities.len()
            invariant
                i <= self.entities@.len(),
                es == self@.entities,
                es.len() == self.entities@.len(),
                views_of(names@) == field_names_concat(es.take(i as int)),
            decreases self.entities@.len() - i,
        {
            let current = &self.entities[i];
            let ghost pre = names@;
            let mut j: usize = 0;
            while j < current.fields.len()
                invariant
                    j <= current.fields@.len(),
                    i < self.entities@.len(),
                    es == self@.entities,
                    es.len() == self.entities@.len(),
                    current == &self.entities@[i as int],
                    current@.fields.len() == current.fields@.len(),
                    views_of(pre) == field_names_concat(es.take(i as int)),
                    names@.len() == pre.len() + j,
                    forall|m: int| 0 <= m < pre.len() ==> names@[m] == pre[m],
                    forall|m: int| 0 <= m < j ==> names@[pre.len() + m]@ == current.fields@[m].name@,
                decreases current.fields@.len() - j,
            {
                names.push(current.fields[j].name.clone());
                j += 1;
            }
            proof {
                let fnames = current@.fields.map_values(|f: FieldView| f.name);
                assert(views_of(names@) =~= views_of(pre) + fnames);
                assert(es.take(i as int + 1).drop_last() =~= es.take(i as int));
                assert(es.take(i as int + 1).last() == es[i as int]);
                assert(es[i as int] == current@);
                assert(views_of(names@) =~= field_names_concat(es.take(i as int + 1)));
            }
            i += 1;
        }
        proof {
            assert(es.take(es.len() as int) =~= es);
        }
        names
    }

    /// The first pass: no enum type name may be framework-internal.
    fn check_enum_type_defs(&self) -> (r: Result<(), SchemaError>)
        ensures
            match r {
                Result::Ok(_) => reserved_enum_offenders(self@).len() == 0,
                Result::Err(e) => reserved_enum_offenders(self@).len() > 0 && e@
                    == (ErrorView::ReservedEnumNames { names: reserved_enum_offenders(self@) }),
            },
    {
        let enum_names = self.get_all_enum_type_names();
        let reserved_enums = collect_reserved_enum_names(&enum_names);
        if reserved_enums.len() > 0 {
            proof {
                assert(views_of(reserved_enums@).len() > 0);
            }
            Err(SchemaError::ReservedEnumNames { names: reserved_enums })
        } else {
            proof {
                assert(views_of(reserved_enums@).len() == 0);
            }
            Ok(())
        }
    }

    /// The second pass: no name the schema binds may be a reserved word.
    fn check_schema_for_reserved_words(&self) -> (r: Result<(), SchemaError>)
        ensures
            match r {
                Result::Ok(_) => reserved_word_offenders(self@).len() == 0,
                Result::Err(e) => reserved_word_offenders(self@).len() > 0 && e@
                    == (ErrorView::ReservedWords { names: reserved_word_offenders(self@) }),
            },
    {
        let mut all_names = self.get_all_enum_type_names();
        let mut enum_values = self.get_all_enum_values();
        let mut entity_names = self.get_all_entity_type_names();
        let mut field_names = self.get_all_entity_field_names();
        all_names.append(&mut enum_values);
        all_names.append(&mut entity_names);
        all_names.append(&mut field_names);
        proof {
            assert(views_of(all_names@) =~= schema_names(self@));
        }
        let reserved = collect_reserved_words(&all_names);
        if reserved.len() > 0 {
            proof {
                assert(views_of(reserved@).len() > 0);
            }
            Err(SchemaError::ReservedWords { names: reserved })
        } else {
            proof {
                assert(views_of(reserved@).len() == 0);
            }
            Ok(())
        }
    }

    /// The third pass: no name may denote both an enum and an entity.
    fn check_duplicate_naming_between_enums_and_entities(&self) -> (r: Result<(), SchemaError>)
        ensures
            match r {
                Result::Ok(_) => namespace_collisions(self@).len() == 0,
                Result::Err(e) => namespace_collisions(self@).len() > 0 && e@
                    == (ErrorView::DuplicateTypeDefNames { names: namespace_collisions(self@) }),
            },
    {
        let ghost ens = enum_names_seq(self@);
        let ghost p = |n: Seq<char>| has_entity(self@, n);
        let mut collisions: Vec<String> = Vec::new();
        let mut i: usize = 0;
        proof {
            assert(views_of(collisions@) =~= filtered(ens.take(0), p));
        }
        while i < self.enums.len()
            invariant
                i <= self.enums@.len(),
                ens == enum_names_seq(self@),
                ens.len() == self.enums@.len(),
                p == (|n: Seq<char>| has_entity(self@, n)),
                views_of(collisions@) == filtered(ens.take(i as int), p),
            decreases self.enums@.len() - i,
        {
            proof {
                assert(ens.take(i as int + 1).drop_last() =~= ens.take(i as int));
                assert(ens.take(i as int + 1).last() == ens[i as int]);
                assert(ens[i as int] == self@.enums[i as int].name);
            }
            let hit = self.find_entity(self.enums[i].name.as_str());
            match hit {
                Some(_) => {
                    collisions.push(self.enums[i].name.clone());
                },
                None => {},
            }
            proof {
                assert(views_of(collisions@) =~= filtered(ens.take(i as int + 1), p));
            }
            i += 1;
        }
        proof {
            assert(ens.take(ens.len() as int) =~= ens);
        }
        if collisions.len() > 0 {
            proof {
                assert(views_of(collisions@).len() > 0);
            }
            Err(SchemaError::DuplicateTypeDefNames { names: collisions })
        } else {
            proof {
                assert(views_of(collisions@).len() == 0);
            }
            Ok(())
        }
    }

    /// The fourth pass: every name the schema binds must match the
    /// storage-identifier grammar, so that a validated schema never holds an
    /// identifier its storage tables could not carry. Enum names and values
    /// were already held to the grammar when the enum was built; checking
    /// them again here makes the guarantee hold of every value this pass
    /// accepts.
    fn check_names_match_storage_grammar(&self) -> (r: Result<(), SchemaError>)
        ensures
            match r {
                Result::Ok(_) => invalid_name_offenders(self@).len() == 0,
                Result::Err(e) => invalid_name_offenders(self@).len() > 0 && e@
                    == (ErrorView::InvalidStorageNames { names: invalid_name_offenders(self@) }),
            },
    {
        let mut all_names = self.get_all_enum_type_names();
        let mut enum_values = self.get_all_enum_values();
        let mut entity_names = self.get_all_entity_type_names();
        let mut field_names = self.get_all_entity_field_names();
        all_names.append(&mut enum_values);
        all_names.append(&mut entity_names);
        all_names.append(&mut field_names);
        proof {
            assert(views_of(all_names@) =~= schema_names(self@));
        }
        let invalid = collect_invalid_storage_names(&all_names);
        if invalid.len() > 0 {
            proof {
                assert(views_of(invalid@).len() > 0);
            }
            Err(SchemaError::InvalidStorageNames { names: invalid })
        } else {
            proof {
                assert(views_of(invalid@).len() == 0);
            }
            Ok(())
        }
    }

    /// Runs the ordered validation pipeline, handing the schema back
    /// unchanged when every pass accepts it, and reporting the first failing
    /// pass's offenders otherwise. Later passes never run once an earlier
    /// one has failed.
    pub fn validate(self) -> (r: Result<Schema, SchemaError>)
        ensures
            match r {
                Result::Ok(s) => s == self && validate_error(self@) is None,
                Result::Err(e) => validate_error(self@) == Some(e@),
            },
    {
        match self.check_enum_type_defs() {
            Err(e) => {
                return Err(e);
            },
            Ok(_) => {},
        }
        match self.check_schema_for_reserved_words() {
            Err(e) => {
                return Err(e);
            },
            Ok(_) => {},
        }
        match self.check_duplicate_naming_between_enums_and_entities() {
            Err(e) => {
                return Err(e);
            },
            Ok(_) => {},
        }
        match self.check_names_match_storage_grammar() {
            Err(e) => {
                return Err(e);
            },
            Ok(_) => {},
        }
        match self.check_related_type_defs_exist() {
            Err(e) => {
                return Err(e);
            },
            Ok(_) => {},
        }
        match self.validate_entity_field_types() {
            Err(e) => {
                return Err(e);
            },
            Ok(_) => {},
        }
        Ok(self)
    }
}

/// The first failure when a schema is built from parts: duplicate entity
/// names, then duplicate enum names, then the validation pipeline.
pub open spec fn schema_new_error(es: Seq<EntityView>, gs: Seq<EnumView>) -> Option<ErrorView> {
    let dup_entities = duplicate_names(es.map_values(|e: EntityView| e.name));
    if dup_entities.len() > 0 {
        Some(ErrorView::DuplicateEntityNames { names: dup_entities })
    } else {
        let dup_enums = duplicate_names(gs.map_values(|e: EnumView| e.name));
        if dup_enums.len() > 0 {
            Some(ErrorView::DuplicateEnumNames { names: dup_enums })
        } else {
            validate_error(SchemaView { entities: es, enums: gs })
        }
    }
}

impl Schema {
    /// Builds a schema from entities and enums, refusing duplicate names in
    /// either collection, and validates it.
    pub fn new(entities: Vec<Entity>, enums: Vec<GraphQLEnum>) -> (r: Result<Schema, SchemaError>)
        ensures
            match r {
                Result::Ok(s) => s@.entities == entities@.map_values(|e: Entity| e@) && s@.enums
                    == enums@.map_values(|e: GraphQLEnum| e@) && schema_new_error(
                    entities@.map_values(|e: Entity| e@),
                    enums@.map_values(|e: GraphQLEnum| e@),
                ) is None,
                Result::Err(e) => Some(e@) == schema_new_error(
                    entities@.map_values(|e: Entity| e@),
                    enums@.map_values(|e: GraphQLEnum| e@),
                ),
            },
    {
        let ghost es = entities@.map_values(|e: Entity| e@);
        let ghost gs = enums@.map_values(|e: GraphQLEnum| e@);
        let mut entity_names: Vec<String> = Vec::new();
        let mut i: usize = 0;
        while i < entities.len()
            invariant
                i <= entities@.len(),
                entity_names@.len() == i,
                forall|j: int| 0 <= j < i ==> entity_names@[j]@ == entities@[j].name@,
            decreases entities@.len() - i,
        {
            entity_names.push(entities[i].name.clone());
            i += 1;
        }
        proof {
            assert(views_of(entity_names@) =~= es.map_values(|e: EntityView| e.name));
        }
        let dup_entities = collect_duplicates(&entity_names);
        if dup_entities.len() > 0 {
            proof {
                assert(views_of(dup_entities@).len() > 0);
            }
            return Err(SchemaError::DuplicateEntityNames { names: dup_entities });
        }
        let mut enum_names: Vec<String> = Vec::new();
        let mut k: usize = 0;
        while k < enums.len()
            invariant
                k <= enums@.len(),
                enum_names@.len() == k,
                forall|j: int| 0 <= j < k ==> enum_names@[j]@ == enums@[j].name@,
            decreases enums@.len() - k,
        {
            enum_names.push(enums[k].name.clone());
            k += 1;
        }
        proof {
            assert(views_of(enum_names@) =~= gs.map_values(|e: EnumView| e.name));
        }
        let dup_enums = collect_duplicates(&enum_names);
        if dup_enums.len() > 0 {
            proof {
                assert(views_of(dup_enums@).len() > 0);
                assert(views_of(dup_entities@).len() == 0);
            }
            return Err(SchemaError::DuplicateEnumNames { names: dup_enums });
        }
        proof {
            assert(views_of(dup_entities@).len() == 0);
            assert(views_of(dup_enums@).len() == 0);
        }
        let schema = Schema { entities, enums };
        proof {
            assert(schema@.entities == es);
            assert(schema@.enums == gs);
        }
        schema.validate()
    }
}

} // verus!
