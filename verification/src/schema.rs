//! The schema data model: entities with named, typed fields, and enums with
//! named values, sharing one logical namespace.

use vstd::prelude::*;
use crate::errors::{ErrorView, SchemaError};
use crate::field_type::{FieldType, FieldTypeView, ScalarView, field_type_as_type, underlying_scalar};
use crate::ident::str_eq;

verus! {

/// Mathematical model of a field.
#[verifier::ext_equal]
pub struct FieldView {
    pub name: Seq<char>,
    pub field_type: FieldTypeView,
}

/// Mathematical model of an entity.
#[verifier::ext_equal]
pub struct EntityView {
    pub name: Seq<char>,
    pub fields: Seq<FieldView>,
}

/// Mathematical model of an enum.
#[verifier::ext_equal]
pub struct EnumView {
    pub name: Seq<char>,
    pub values: Seq<Seq<char>>,
}

/// Mathematical model of a schema.
#[verifier::ext_equal]
pub struct SchemaView {
    pub entities: Seq<EntityView>,
    pub enums: Seq<EnumView>,
}

/// A named, typed field of an entity.
#[derive(Debug, PartialEq, Eq)]
pub struct Field {
    pub name: String,
    pub field_type: FieldType,
}

impl View for Field {
    type V = FieldView;

    open spec fn view(&self) -> FieldView {
        FieldView { name: self.name@, field_type: self.field_type@ }
    }
}

impl Clone for Field {
    fn clone(&self) -> (r: Self)
        ensures
            r@ == self@,
    {
        Field { name: self.name.clone(), field_type: self.field_type.clone() }
    }
}

/// A named record type whose instances become storage rows.
#[derive(Debug, PartialEq, Eq)]
pub struct Entity {
    pub name: String,
    pub fields: Vec<Field>,
}

impl View for Entity {
    type V = EntityView;

    open spec fn view(&self) -> EntityView {
        EntityView { name: self.name@, fields: self.fields@.map_values(|f: Field| f@) }
    }
}

impl Clone for Entity {
    fn clone(&self) -> (r: Self)
        ensures
            r@ == self@,
    {
        let mut fields: Vec<Field> = Vec::new();
        let mut i: usize = 0;
        while i < self.fields.len()
            invariant
                i <= self.fields@.len(),
                fields@.len() == i,
                forall|j: int| 0 <= j < i ==> fields@[j]@ == self.fields@[j]@,
            decreases self.fields@.len() - i,
        {
            fields.push(self.fields[i].clone());
            i += 1;
        }
        proof {
            assert(fields@.map_values(|f: Field| f@) =~= self.fields@.map_values(|f: Field| f@));
        }
        Entity { name: self.name.clone(), fields }
    }
}

/// A named closed set of distinct string values.
#[derive(Debug, PartialEq, Eq)]
pub struct GraphQLEnum {
    pub name: String,
    pub values: Vec<String>,
}

impl View for GraphQLEnum {
    type V = EnumView;

    open spec fn view(&self) -> EnumView {
        EnumView { name: self.name@, values: self.values@.map_values(|v: String| v@) }
    }
}

impl Clone for GraphQLEnum {
    fn clone(&self) -> (r: Self)
        ensures
            r@ == self@,
    {
        let mut values: Vec<String> = Vec::new();
        let mut i: usize = 0;
        while i < self.values.len()
            invariant
                i <= self.values@.len(),
                values@.len() == i,
                forall|j: int| 0 <= j < i ==> values@[j]@ == self.values@[j]@,
            decreases self.values@.len() - i,
        {
            values.push(self.values[i].clone());
            i += 1;
        }
        proof {
            assert(values@.map_values(|v: String| v@) =~= self.values@.map_values(
                |v: String| v@,
            ));
        }
        GraphQLEnum { name: self.name.clone(), values }
    }
}

/// A whole schema: entities and enums, sharing one namespace.
#[derive(Debug, PartialEq, Eq)]
pub struct Schema {
    pub entities: Vec<Entity>,
    pub enums: Vec<GraphQLEnum>,
}

impl View for Schema {
    type V = SchemaView;

    open spec fn view(&self) -> SchemaView {
        SchemaView {
            entities: self.entities@.map_values(|e: Entity| e@),
            enums: self.enums@.map_values(|e: GraphQLEnum| e@),
        }
    }
}

impl Clone for Schema {
    fn clone(&self) -> (r: Self)
        ensures
            r@ == self@,
    {
        let mut entities: Vec<Entity> = Vec::new();
        let mut i: usize = 0;
        while i < self.entities.len()
            invariant
                i <= self.entities@.len(),
                entities@.len() == i,
                forall|j: int| 0 <= j < i ==> entities@[j]@ == self.entities@[j]@,
            decreases self.entities@.len() - i,
        {
            entities.push(self.entities[i].clone());
            i += 1;
        }
        let mut enums: Vec<GraphQLEnum> = Vec::new();
        let mut k: usize = 0;
        while k < self.enums.len()
            invariant
                k <= self.enums@.len(),
                enums@.len() == k,
                forall|j: int| 0 <= j < k ==> enums@[j]@ == self.enums@[j]@,
            decreases self.enums@.len() - k,
        {
            enums.push(self.enums[k].clone());
            k += 1;
        }
        proof {
            assert(entities@.map_values(|e: Entity| e@) =~= self.entities@.map_values(
                |e: Entity| e@,
            ));
            assert(enums@.map_values(|e: GraphQLEnum| e@) =~= self.enums@.map_values(
                |e: GraphQLEnum| e@,
            ));
        }
        Schema { entities, enums }
    }
}

/// Whether some entity of a sequence bears a name.
pub open spec fn has_entity_in(es: Seq<EntityView>, n: Seq<char>) -> bool {
    exists|i: int| 0 <= i < es.len() && es[i].name == n
}

/// Whether some enum of a sequence bears a name.
pub open spec fn has_enum_in(es: Seq<EnumView>, n: Seq<char>) -> bool {
    exists|i: int| 0 <= i < es.len() && es[i].name == n
}

/// Whether some entity bears a name.
pub open spec fn has_entity(s: SchemaView, n: Seq<char>) -> bool {
    has_entity_in(s.entities, n)
}

/// Whether some enum bears a name.
pub open spec fn has_enum(s: SchemaView, n: Seq<char>) -> bool {
    has_enum_in(s.enums, n)
}

/// A name resolves to an entity: it names an entity and no enum.
pub open spec fn resolves_to_entity(s: SchemaView, n: Seq<char>) -> bool {
    has_entity(s, n) && !has_enum(s, n)
}

/// A name resolves to an enum: it names an enum and no entity.
pub open spec fn resolves_to_enum(s: SchemaView, n: Seq<char>) -> bool {
    !has_entity(s, n) && has_enum(s, n)
}

/// The index of the first entity bearing a name.
pub open spec fn first_entity_idx(es: Seq<EntityView>, n: Seq<char>) -> int
    decreases es.len(),
{
    if es.len() == 0 {
        0
    } else if es[0].name == n {
        0
    } else {
        1 + first_entity_idx(es.drop_first(), n)
    }
}

/// The first entity of a sequence bearing a name.
pub open spec fn entity_named_in(es: Seq<EntityView>, n: Seq<char>) -> EntityView {
    es[first_entity_idx(es, n)]
}

/// The first entity bearing a name.
pub open spec fn entity_named(s: SchemaView, n: Seq<char>) -> EntityView {
    entity_named_in(s.entities, n)
}

/// The index of the first enum bearing a name.
pub open spec fn first_enum_idx(es: Seq<EnumView>, n: Seq<char>) -> int
    decreases es.len(),
{
    if es.len() == 0 {
        0
    } else if es[0].name == n {
        0
    } else {
        1 + first_enum_idx(es.drop_first(), n)
    }
}

/// The first enum bearing a name.
pub open spec fn enum_named(s: SchemaView, n: Seq<char>) -> EnumView {
    s.enums[first_enum_idx(s.enums, n)]
}

/// Whether an entity declares a field of a name.
pub open spec fn has_field(e: EntityView, n: Seq<char>) -> bool {
    exists|i: int| 0 <= i < e.fields.len() && e.fields[i].name == n
}

/// The index of the first field bearing a name.
pub open spec fn first_field_idx(fs: Seq<FieldView>, n: Seq<char>) -> int
    decreases fs.len(),
{
    if fs.len() == 0 {
        0
    } else if fs[0].name == n {
        0
    } else {
        1 + first_field_idx(fs.drop_first(), n)
    }
}

/// The first field of an entity bearing a name.
pub open spec fn field_named(e: EntityView, n: Seq<char>) -> FieldView {
    e.fields[first_field_idx(e.fields, n)]
}

/// Where there is an entity of the name and the first `i` entities do not
/// bear it, the first index bearing it is at least `i`; at a hit it is
/// exactly `i`.
pub proof fn lemma_first_entity_idx(es: Seq<EntityView>, n: Seq<char>, i: int)
    requires
        0 <= i <= es.len(),
        forall|j: int| 0 <= j < i ==> es[j].name != n,
    ensures
        i < es.len() && es[i].name == n ==> first_entity_idx(es, n) == i,
        i == es.len() ==> !(exists|j: int| 0 <= j < es.len() && es[j].name == n),
    decreases i,
{
    if i == 0 {
    } else {
        assert(es[0].name != n);
        assert forall|j: int| 0 <= j < i - 1 implies es.drop_first()[j].name != n by {
            assert(es.drop_first()[j] == es[j + 1]);
        }
        lemma_first_entity_idx(es.drop_first(), n, i - 1);
        if i < es.len() && es[i].name == n {
            assert(es.drop_first()[i - 1].name == n);
        }
    }
}

pub proof fn lemma_first_enum_idx(es: Seq<EnumView>, n: Seq<char>, i: int)
    requires
        0 <= i <= es.len(),
        forall|j: int| 0 <= j < i ==> es[j].name != n,
    ensures
        i < es.len() && es[i].name == n ==> first_enum_idx(es, n) == i,
        i == es.len() ==> !(exists|j: int| 0 <= j < es.len() && es[j].name == n),
    decreases i,
{
    if i == 0 {
    } else {
        assert(es[0].name != n);
        assert forall|j: int| 0 <= j < i - 1 implies es.drop_first()[j].name != n by {
            assert(es.drop_first()[j] == es[j + 1]);
        }
        lemma_first_enum_idx(es.drop_first(), n, i - 1);
        if i < es.len() && es[i].name == n {
            assert(es.drop_first()[i - 1].name == n);
        }
    }
}

pub proof fn lemma_first_field_idx(fs: Seq<FieldView>, n: Seq<char>, i: int)
    requires
        0 <= i <= fs.len(),
        forall|j: int| 0 <= j < i ==> fs[j].name != n,
    ensures
        i < fs.len() && fs[i].name == n ==> first_field_idx(fs, n) == i,
        i == fs.len() ==> !(exists|j: int| 0 <= j < fs.len() && fs[j].name == n),
    decreases i,
{
    if i == 0 {
    } else {
        assert(fs[0].name != n);
        assert forall|j: int| 0 <= j < i - 1 implies fs.drop_first()[j].name != n by {
            assert(fs.drop_first()[j] == fs[j + 1]);
        }
        lemma_first_field_idx(fs.drop_first(), n, i - 1);
        if i < fs.len() && fs[i].name == n {
            assert(fs.drop_first()[i - 1].name == n);
        }
    }
}

/// The kind of definition a name resolves to.
pub enum TypeDef<'a> {
    Entity(&'a Entity),
    Enum(&'a GraphQLEnum),
}

impl Schema {
    /// A schema with no entities and no enums.
    pub fn empty() -> (r: Self)
        ensures
            r@.entities.len() == 0,
            r@.enums.len() == 0,
    {
        Schema { entities: Vec::new(), enums: Vec::new() }
    }

    /// The first entity of a name, where one exists.
    pub fn find_entity<'a>(&'a self, name: &str) -> (r: Option<&'a Entity>)
        ensures
            match r {
                Option::Some(e) => has_entity(self@, name@) && e@ == entity_named(self@, name@)
                    && e@.name == name@,
                Option::None => !has_entity(self@, name@),
            },
    {
        let ghost es = self@.entities;
        let mut i: usize = 0;
        while i < self.entities.len()
            invariant
                i <= self.entities@.len(),
                es == self@.entities,
                es.len() == self.entities@.len(),
                forall|j: int| 0 <= j < i ==> es[j].name != name@,
            decreases self.entities@.len() - i,
        {
            if str_eq(self.entities[i].name.as_str(), name) {
                proof {
                    lemma_first_entity_idx(es, name@, i as int);
                }
                return Some(&self.entities[i]);
            }
            i += 1;
        }
        proof {
            lemma_first_entity_idx(es, name@, es.len() as int);
        }
        None
    }

    /// The first enum of a name, where one exists.
    pub fn find_enum<'a>(&'a self, name: &str) -> (r: Option<&'a GraphQLEnum>)
        ensures
            match r {
                Option::Some(e) => has_enum(self@, name@) && e@ == enum_named(self@, name@)
                    && e@.name == name@,
                Option::None => !has_enum(self@, name@),
            },
    {
        let ghost es = self@.enums;
        let mut i: usize = 0;
        while i < self.enums.len()
            invariant
                i <= self.enums@.len(),
                es == self@.enums,
                es.len() == self.enums@.len(),
                forall|j: int| 0 <= j < i ==> es[j].name != name@,
            decreases self.enums@.len() - i,
        {
            if str_eq(self.enums[i].name.as_str(), name) {
                proof {
                    lemma_first_enum_idx(es, name@, i as int);
                }
                return Some(&self.enums[i]);
            }
            i += 1;
        }
        proof {
            lemma_first_enum_idx(es, name@, es.len() as int);
        }
        None
    }

    /// Resolves a name to the one definition that bears it: an error names
    /// a definition that is missing, or one that an entity and an enum both
    /// claim.
    pub fn try_get_type_def<'a>(&'a self, name: &String) -> (r: Result<TypeDef<'a>, SchemaError>)
        ensures
            match r {
                Result::Ok(td) => match td {
                    TypeDef::Entity(e) => resolves_to_entity(self@, name@) && e@ == entity_named(
                        self@,
                        name@,
                    ),
                    TypeDef::Enum(g) => resolves_to_enum(self@, name@) && g@ == enum_named(
                        self@,
                        name@,
                    ),
                },
                Result::Err(e) => {
                    ||| {
                        &&& !has_entity(self@, name@)
                        &&& !has_enum(self@, name@)
                        &&& e@ == (ErrorView::UnknownTypeDef { name: name@ })
                    }
                    ||| {
                        &&& has_entity(self@, name@)
                        &&& has_enum(self@, name@)
                        &&& e@ == (ErrorView::AmbiguousTypeDef { name: name@ })
                    }
                },
            },
    {
        let found_entity = self.find_entity(name.as_str());
        let found_enum = self.find_enum(name.as_str());
        match (found_entity, found_enum) {
            (None, None) => Err(SchemaError::UnknownTypeDef { name: name.clone() }),
            (Some(_), Some(_)) => Err(SchemaError::AmbiguousTypeDef { name: name.clone() }),
            (Some(entity), None) => Ok(TypeDef::Entity(entity)),
            (None, Some(gql_enum)) => Ok(TypeDef::Enum(gql_enum)),
        }
    }
}

impl Entity {
    /// The first field of a name, where one exists.
    pub fn find_field<'a>(&'a self, name: &str) -> (r: Option<&'a Field>)
        ensures
            match r {
                Option::Some(f) => has_field(self@, name@) && f@ == field_named(self@, name@)
                    && f@.name == name@,
                Option::None => !has_field(self@, name@),
            },
    {
        let ghost fs = self@.fields;
        let mut i: usize = 0;
        while i < self.fields.len()
            invariant
                i <= self.fields@.len(),
                fs == self@.fields,
                fs.len() == self.fields@.len(),
                forall|j: int| 0 <= j < i ==> fs[j].name != name@,
            decreases self.fields@.len() - i,
        {
            if str_eq(self.fields[i].name.as_str(), name) {
                proof {
                    lemma_first_field_idx(fs, name@, i as int);
                }
                return Some(&self.fields[i]);
            }
            i += 1;
        }
        proof {
            lemma_first_field_idx(fs, name@, fs.len() as int);
        }
        None
    }
}


/// Mathematical model of a relationship edge.
#[verifier::ext_equal]
pub enum RelationshipView {
    TypeDef { name: Seq<char> },
    DerivedFrom { name: Seq<char>, derived_from_field: Seq<char> },
}

/// A relationship edge out of an entity: a forward reference to a named
/// type definition, or a derived back-reference.
#[derive(Debug, PartialEq, Eq)]
pub enum Relationship {
    TypeDef { name: String },
    DerivedFrom { name: String, derived_from_field: String },
}

impl View for Relationship {
    type V = RelationshipView;

    open spec fn view(&self) -> RelationshipView {
        match self {
            Relationship::TypeDef { name } => RelationshipView::TypeDef { name: name@ },
            Relationship::DerivedFrom { name, derived_from_field } => RelationshipView::DerivedFrom {
                name: name@,
                derived_from_field: derived_from_field@,
            },
        }
    }
}

impl Clone for Relationship {
    fn clone(&self) -> (r: Self)
        ensures
            r@ == self@,
    {
        match self {
            Relationship::TypeDef { name } => Relationship::TypeDef { name: name.clone() },
            Relationship::DerivedFrom { name, derived_from_field } => Relationship::DerivedFrom {
                name: name.clone(),
                derived_from_field: derived_from_field.clone(),
            },
        }
    }
}

/// The derived back-references among some fields, in field order.
pub open spec fn derived_rels(fs: Seq<FieldView>) -> Seq<RelationshipView>
    decreases fs.len(),
{
    if fs.len() == 0 {
        Seq::empty()
    } else {
        derived_rels(fs.drop_last()) + match fs.last().field_type {
            FieldTypeView::Derived { entity_name, derived_from_field } => seq![
                RelationshipView::DerivedFrom { name: entity_name, derived_from_field },
            ],
            FieldTypeView::Regular(_) => Seq::empty(),
        }
    }
}

/// The forward references among some fields, in field order: one per field
/// whose underlying scalar names a type definition.
pub open spec fn typedef_rels(fs: Seq<FieldView>) -> Seq<RelationshipView>
    decreases fs.len(),
{
    if fs.len() == 0 {
        Seq::empty()
    } else {
        typedef_rels(fs.drop_last()) + match underlying_scalar(
            field_type_as_type(fs.last().field_type),
        ) {
            ScalarView::Custom(n) => seq![RelationshipView::TypeDef { name: n }],
            _ => Seq::empty(),
        }
    }
}

/// All relationship edges of an entity: the derived back-references first,
/// then the forward references.
pub open spec fn relationships_of(e: EntityView) -> Seq<RelationshipView> {
    derived_rels(e.fields) + typedef_rels(e.fields)
}

impl Field {
    /// The forward reference this field makes, where its underlying scalar
    /// names a type definition.
    pub fn get_relationship(&self) -> (r: Option<Relationship>)
        ensures
            match underlying_scalar(field_type_as_type(self@.field_type)) {
                ScalarView::Custom(n) => r matches Some(rel) && rel@ == (RelationshipView::TypeDef {
                    name: n,
                }),
                _ => r is None,
            },
    {
        match self.field_type.get_underlying_scalar() {
            crate::field_type::GqlScalar::Custom(name) => Some(Relationship::TypeDef { name }),
            _ => None,
        }
    }
}

impl Entity {
    /// All relationship edges out of this entity: derived back-references,
    /// then forward references, in field order.
    pub fn get_relationships(&self) -> (r: Vec<Relationship>)
        ensures
            r@.map_values(|rel: Relationship| rel@) == relationships_of(self@),
    {
        let ghost fs = self@.fields;
        let mut derived: Vec<Relationship> = Vec::new();
        let mut i: usize = 0;
        proof {
            assert(fs.take(0) =~= Seq::<FieldView>::empty());
        }
        while i < self.fields.len()
            invariant
                i <= self.fields@.len(),
                fs == self@.fields,
                fs.len() == self.fields@.len(),
                derived@.map_values(|rel: Relationship| rel@) == derived_rels(fs.take(i as int)),
            decreases self.fields@.len() - i,
        {
            proof {
                assert(fs.take(i as int + 1).drop_last() =~= fs.take(i as int));
                assert(fs.take(i as int + 1).last() == fs[i as int]);
            }
            match &self.fields[i].field_type {
                FieldType::DerivedFromField { entity_name, derived_from_field } => {
                    derived.push(
                        Relationship::DerivedFrom {
                            name: entity_name.clone(),
                            derived_from_field: derived_from_field.clone(),
                        },
                    );
                },
                FieldType::RegularField(_) => {},
            }
            proof {
                assert(derived@.map_values(|rel: Relationship| rel@) =~= derived_rels(
                    fs.take(i as int + 1),
                ));
            }
            i += 1;
        }
        let mut typedefs: Vec<Relationship> = Vec::new();
        let mut k: usize = 0;
        while k < self.fields.len()
            invariant
                k <= self.fields@.len(),
                fs == self@.fields,
                fs.len() == self.fields@.len(),
                typedefs@.map_values(|rel: Relationship| rel@) == typedef_rels(fs.take(k as int)),
            decreases self.fields@.len() - k,
        {
            proof {
                assert(fs.take(k as int + 1).drop_last() =~= fs.take(k as int));
                assert(fs.take(k as int + 1).last() == fs[k as int]);
            }
            match self.fields[k].get_relationship() {
                Some(rel) => {
                    typedefs.push(rel);
                },
                None => {},
            }
            proof {
                assert(typedefs@.map_values(|rel: Relationship| rel@) =~= typedef_rels(
                    fs.take(k as int + 1),
                ));
            }
            k += 1;
        }
        proof {
            assert(fs.take(fs.len() as int) =~= fs);
        }
        let mut out = derived;
        out.append(&mut typedefs);
        proof {
            assert(out@.map_values(|rel: Relationship| rel@) =~= derived_rels(fs) + typedef_rels(
                fs,
            ));
        }
        out
    }
}

} // verus!
