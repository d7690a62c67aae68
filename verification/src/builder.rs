//! Building the unvalidated model from a generic parsed schema document:
//! object and enum definitions with type expressions and directives.

use vstd::prelude::*;
use crate::errors::{ErrorView, SchemaError};
use crate::field_type::{FieldType, GqlScalar, TypeView, UserDefinedFieldType, scalar_of_name, spec_derived_from_entity_name};
use crate::ident::str_eq;
use crate::schema::{Entity, EntityView, EnumView, Field, FieldView, GraphQLEnum, Schema, SchemaView};
use crate::validate::{enum_new_error, entity_new_error, schema_new_error, views_of};

verus! {

/// A type expression of the schema document: a named type, a non-null
/// wrapper, or a list.
#[derive(Debug, PartialEq, Eq)]
pub enum TypeExpr {
    Named(String),
    NonNull(Box<TypeExpr>),
    List(Box<TypeExpr>),
}

/// The argument value of a directive: a string, or any other kind.
#[derive(Debug, PartialEq, Eq)]
pub enum ArgValue {
    Str(String),
    Other,
}

/// A directive annotation on a field: a name with named arguments.
#[derive(Debug, PartialEq, Eq)]
pub struct DirectiveDef {
    pub name: String,
    pub arguments: Vec<(String, ArgValue)>,
}

/// A field of an object definition.
#[derive(Debug, PartialEq, Eq)]
pub struct FieldDef {
    pub name: String,
    pub field_type: TypeExpr,
    pub directives: Vec<DirectiveDef>,
}

/// An object type definition.
#[derive(Debug, PartialEq, Eq)]
pub struct ObjectDef {
    pub name: String,
    pub fields: Vec<FieldDef>,
}

/// An enum type definition.
#[derive(Debug, PartialEq, Eq)]
pub struct EnumDef {
    pub name: String,
    pub values: Vec<String>,
}

/// One definition of a schema document.
#[derive(Debug, PartialEq, Eq)]
pub enum Definition {
    Object(ObjectDef),
    Enum(EnumDef),
}

/// A parsed schema document: an ordered sequence of definitions.
#[derive(Debug, PartialEq, Eq)]
pub struct Document {
    pub definitions: Vec<Definition>,
}

/// The type a type expression lowers to: named types become scalars by
/// name, wrappers carry over.
pub open spec fn lower_type_expr(t: TypeExpr) -> TypeView
    decreases t,
{
    match t {
        TypeExpr::Named(n) => TypeView::Single(scalar_of_name(n@)),
        TypeExpr::NonNull(inner) => TypeView::NonNull(Box::new(lower_type_expr(*inner))),
        TypeExpr::List(inner) => TypeView::List(Box::new(lower_type_expr(*inner))),
    }
}

impl UserDefinedFieldType {
    /// Lowers a type expression into the field-type algebra.
    pub fn from_obj_field_type(obj_field_type: &TypeExpr) -> (r: Self)
        ensures
            r@ == lower_type_expr(*obj_field_type),
        decreases *obj_field_type,
    {
        match obj_field_type {
            TypeExpr::Named(name) => UserDefinedFieldType::Single(GqlScalar::from_str(
                name.as_str(),
            )),
            TypeExpr::NonNull(inner) => UserDefinedFieldType::NonNullType(
                Box::new(Self::from_obj_field_type(inner)),
            ),
            TypeExpr::List(inner) => UserDefinedFieldType::ListType(
                Box::new(Self::from_obj_field_type(inner)),
            ),
        }
    }
}

/// How many derive directives a field carries.
pub open spec fn count_derived(ds: Seq<DirectiveDef>) -> nat
    decreases ds.len(),
{
    if ds.len() == 0 {
        0
    } else {
        count_derived(ds.drop_first()) + if ds[0].name@ == "derivedFrom"@ {
            1nat
        } else {
            0nat
        }
    }
}

/// The first derive directive of a field.
pub open spec fn first_derived(ds: Seq<DirectiveDef>) -> DirectiveDef
    decreases ds.len(),
{
    if ds.len() == 0 {
        ds[0]
    } else if ds[0].name@ == "derivedFrom"@ {
        ds[0]
    } else {
        first_derived(ds.drop_first())
    }
}

/// Counting over a prefix and the rest splits the count.
pub proof fn lemma_count_derived_split(ds: Seq<DirectiveDef>, i: int)
    requires
        0 <= i <= ds.len(),
    ensures
        count_derived(ds) == count_derived(ds.take(i)) + count_derived(ds.skip(i)),
    decreases i,
{
    if i == 0 {
        assert(ds.take(0) =~= Seq::<DirectiveDef>::empty());
        assert(ds.skip(0) =~= ds);
    } else {
        lemma_count_derived_split(ds, i - 1);
        assert(ds.skip(i - 1).drop_first() =~= ds.skip(i));
        assert(ds.skip(i - 1)[0] == ds[i - 1]);
        assert(count_derived(ds.take(i)) == count_derived(ds.take(i - 1)) + count_derived(
            ds.take(i).skip(i - 1),
        )) by {
            lemma_count_derived_split(ds.take(i), i - 1);
            assert(ds.take(i).take(i - 1) =~= ds.take(i - 1));
        }
        assert(ds.take(i).skip(i - 1) =~= seq![ds[i - 1]]);
        assert(count_derived(seq![ds[i - 1]]) == if ds[i - 1].name@ == "derivedFrom"@ {
            1nat
        } else {
            0nat
        }) by {
            assert(seq![ds[i - 1]].drop_first() =~= Seq::<DirectiveDef>::empty());
            assert(seq![ds[i - 1]][0] == ds[i - 1]);
            assert(count_derived(Seq::<DirectiveDef>::empty()) == 0);
        }
    }
}

/// A zero count means no directive is a derive directive.
pub proof fn lemma_count_derived_zero(ds: Seq<DirectiveDef>)
    ensures
        (count_derived(ds) == 0) <==> (forall|j: int|
            0 <= j < ds.len() ==> ds[j].name@ != "derivedFrom"@),
    decreases ds.len(),
{
    if ds.len() > 0 {
        lemma_count_derived_zero(ds.drop_first());
        assert(forall|j: int| 0 <= j < ds.len() - 1 ==> ds.drop_first()[j] == ds[j + 1]);
        if count_derived(ds) == 0 {
            assert forall|j: int| 0 <= j < ds.len() implies ds[j].name@ != "derivedFrom"@ by {
                if j > 0 {
                    assert(ds.drop_first()[j - 1] == ds[j]);
                }
            }
        } else {
            if ds[0].name@ != "derivedFrom"@ {
                assert(count_derived(ds.drop_first()) > 0);
                let j = choose|j: int|
                    0 <= j < ds.drop_first().len() && ds.drop_first()[j].name@ == "derivedFrom"@;
                assert(ds[j + 1].name@ == "derivedFrom"@);
            }
        }
    }
}

/// Where the first `i` directives are not derive directives and directive
/// `i` is one, it is the first.
pub proof fn lemma_first_derived(ds: Seq<DirectiveDef>, i: int)
    requires
        0 <= i < ds.len(),
        forall|j: int| 0 <= j < i ==> ds[j].name@ != "derivedFrom"@,
        ds[i].name@ == "derivedFrom"@,
    ensures
        first_derived(ds) == ds[i],
    decreases i,
{
    if i > 0 {
        assert forall|j: int| 0 <= j < i - 1 implies ds.drop_first()[j].name@ != "derivedFrom"@ by {
            assert(ds.drop_first()[j] == ds[j + 1]);
        }
        assert(ds.drop_first()[i - 1] == ds[i]);
        lemma_first_derived(ds.drop_first(), i - 1);
    }
}

/// Whether a directive carries a `field` argument.
pub open spec fn has_field_arg(args: Seq<(String, ArgValue)>) -> bool {
    exists|k: int| 0 <= k < args.len() && args[k].0@ == "field"@
}

/// The first `field` argument of a directive.
pub open spec fn first_field_arg(args: Seq<(String, ArgValue)>) -> (String, ArgValue)
    decreases args.len(),
{
    if args.len() == 0 {
        args[0]
    } else if args[0].0@ == "field"@ {
        args[0]
    } else {
        first_field_arg(args.drop_first())
    }
}

/// Where the first `i` arguments are not named `field` and argument `i` is,
/// it is the first.
pub proof fn lemma_first_field_arg(args: Seq<(String, ArgValue)>, i: int)
    requires
        0 <= i < args.len(),
        forall|j: int| 0 <= j < i ==> args[j].0@ != "field"@,
        args[i].0@ == "field"@,
    ensures
        first_field_arg(args) == args[i],
    decreases i,
{
    if i > 0 {
        assert forall|j: int| 0 <= j < i - 1 implies args.drop_first()[j].0@ != "field"@ by {
            assert(args.drop_first()[j] == args[j + 1]);
        }
        assert(args.drop_first()[i - 1] == args[i]);
        lemma_first_field_arg(args.drop_first(), i - 1);
    }
}

/// How building a field from its definition ends: at most one derive
/// directive is allowed; one present must carry a string `field` argument,
/// and the field's declared shape must then be a non-null list of non-null
/// entities.
pub open spec fn field_build(f: FieldDef) -> Result<FieldView, ErrorView> {
    let lowered = lower_type_expr(f.field_type);
    if count_derived(f.directives@) > 1 {
        Err(ErrorView::MultipleDerivedFromDirectives { field: f.name@ })
    } else if count_derived(f.directives@) == 0 {
        Ok(FieldView { name: f.name@, field_type: crate::field_type::FieldTypeView::Regular(lowered) })
    } else {
        let d = first_derived(f.directives@);
        if !has_field_arg(d.arguments@) {
            Err(ErrorView::MissingDerivedFromFieldArg { field: f.name@ })
        } else {
            match first_field_arg(d.arguments@).1 {
                ArgValue::Other => Err(ErrorView::NonStringDerivedFromFieldArg { field: f.name@ }),
                ArgValue::Str(v) => match spec_derived_from_entity_name(lowered) {
                    None => Err(ErrorView::InvalidDerivedFromStructure { field: v@ }),
                    Some(entity_name) => Ok(
                        FieldView {
                            name: f.name@,
                            field_type: crate::field_type::FieldTypeView::Derived {
                                entity_name,
                                derived_from_field: v@,
                            },
                        },
                    ),
                },
            }
        }
    }
}

impl Field {
    /// Builds a field from its definition.
    pub fn from_obj_field(field: &FieldDef) -> (r: Result<Field, SchemaError>)
        ensures
            match r {
                Result::Ok(f) => field_build(*field) == Ok::<FieldView, ErrorView>(f@),
                Result::Err(e) => field_build(*field) == Err::<FieldView, ErrorView>(e@),
            },
    {
        let ghost ds = field.directives@;
        let mut derived_count: usize = 0;
        let mut first: Option<&DirectiveDef> = None;
        let mut i: usize = 0;
        let ghost mut first_idx: int = 0;
        while i < field.directives.len()
            invariant
                i <= field.directives@.len(),
                ds == field.directives@,
                derived_count as nat == count_derived(ds.take(i as int)),
                derived_count <= i,
                derived_count == 0 <==> first is None,
                derived_count > 0 ==> {
                    &&& 0 <= first_idx < i
                    &&& ds[first_idx].name@ == "derivedFrom"@
                    &&& (forall|j: int| 0 <= j < first_idx ==> ds[j].name@ != "derivedFrom"@)
                },
                first matches Some(d) ==> *d == ds[first_idx],
            decreases field.directives@.len() - i,
        {
            proof {
                lemma_count_derived_split(ds.take(i as int + 1), i as int);
                assert(ds.take(i as int + 1).take(i as int) =~= ds.take(i as int));
                assert(ds.take(i as int + 1).skip(i as int) =~= seq![ds[i as int]]);
                assert(seq![ds[i as int]].drop_first() =~= Seq::<DirectiveDef>::empty());
                assert(seq![ds[i as int]][0] == ds[i as int]);
                assert(count_derived(Seq::<DirectiveDef>::empty()) == 0);
            }
            if str_eq(field.directives[i].name.as_str(), "derivedFrom") {
                if derived_count == 0 {
                    first = Some(&field.directives[i]);
                    proof {
                        first_idx = i as int;
                        lemma_count_derived_zero(ds.take(i as int));
                        assert(forall|j: int| 0 <= j < i ==> ds.take(i as int)[j] == ds[j]);
                    }
                }
                derived_count += 1;
            }
            i += 1;
        }
        proof {
            assert(ds.take(ds.len() as int) =~= ds);
        }
        if derived_count > 1 {
            return Err(SchemaError::MultipleDerivedFromDirectives { field: field.name.clone() });
        }
        let derived_from_field: Option<String> = match first {
            None => None,
            Some(d) => {
                proof {
                    lemma_first_derived(ds, first_idx);
                }
                let args = &d.arguments;
                let ghost av = args@;
                let mut k: usize = 0;
                let mut hit: Option<&(String, ArgValue)> = None;
                while k < args.len()
                    invariant
                        k <= args@.len(),
                        av == args@,
                        hit is None ==> (forall|j: int| 0 <= j < k ==> av[j].0@ != "field"@),
                        hit matches Some(a) ==> has_field_arg(av) && *a == first_field_arg(av),
                    decreases args@.len() - k,
                {
                    match hit {
                        None => {
                            if str_eq(args[k].0.as_str(), "field") {
                                proof {
                                    lemma_first_field_arg(av, k as int);
                                }
                                hit = Some(&args[k]);
                            }
                        },
                        Some(_) => {},
                    }
                    k += 1;
                }
                match hit {
                    None => {
                        return Err(
                            SchemaError::MissingDerivedFromFieldArg { field: field.name.clone() },
                        );
                    },
                    Some(arg) => match &arg.1 {
                        ArgValue::Str(val) => Some(val.clone()),
                        ArgValue::Other => {
                            return Err(
                                SchemaError::NonStringDerivedFromFieldArg {
                                    field: field.name.clone(),
                                },
                            );
                        },
                    },
                }
            },
        };
        let field_type = FieldType::from_obj_field_type(&field.field_type, derived_from_field);
        match field_type {
            Err(e) => Err(e),
            Ok(ft) => Ok(Field { name: field.name.clone(), field_type: ft }),
        }
    }
}

impl FieldType {
    /// Builds a field's type from its type expression and the value of its
    /// derive directive, where one is present: a derived field's declared
    /// shape must be a non-null list of non-null entities.
    pub fn from_obj_field_type(
        obj_field_type: &TypeExpr,
        derived_from_field: Option<String>,
    ) -> (r: Result<Self, SchemaError>)
        ensures
            match derived_from_field {
                Option::None => r matches Ok(ft) && ft@
                    == crate::field_type::FieldTypeView::Regular(
                    lower_type_expr(*obj_field_type),
                ),
                Option::Some(dff) => match spec_derived_from_entity_name(
                    lower_type_expr(*obj_field_type),
                ) {
                    Option::Some(entity_name) => r matches Ok(ft) && ft@
                        == (crate::field_type::FieldTypeView::Derived {
                        entity_name,
                        derived_from_field: dff@,
                    }),
                    Option::None => r matches Err(e) && e@
                        == (ErrorView::InvalidDerivedFromStructure { field: dff@ }),
                },
            },
    {
        let field_type = UserDefinedFieldType::from_obj_field_type(obj_field_type);
        match derived_from_field {
            None => Ok(FieldType::RegularField(field_type)),
            Some(derived_from_field) => match field_type.get_name_of_derived_from_entity() {
                None => Err(
                    SchemaError::InvalidDerivedFromStructure { field: derived_from_field },
                ),
                Some(entity_name) => Ok(
                    FieldType::DerivedFromField { entity_name, derived_from_field },
                ),
            },
        }
    }
}


/// The views of a sequence of fields.
pub open spec fn fviews(v: Seq<Field>) -> Seq<FieldView> {
    v.map_values(|f: Field| f@)
}

/// The views of a sequence of entities.
pub open spec fn eviews(v: Seq<Entity>) -> Seq<EntityView> {
    v.map_values(|e: Entity| e@)
}

/// The views of a sequence of enums.
pub open spec fn gviews(v: Seq<GraphQLEnum>) -> Seq<EnumView> {
    v.map_values(|e: GraphQLEnum| e@)
}

/// How building an entity's fields ends: the first failing field fails the
/// entity.
pub open spec fn fields_build(fs: Seq<FieldDef>) -> Result<Seq<FieldView>, ErrorView>
    decreases fs.len(),
{
    if fs.len() == 0 {
        Ok(Seq::empty())
    } else {
        match field_build(fs[0]) {
            Err(e) => Err(e),
            Ok(fv) => match fields_build(fs.drop_first()) {
                Ok(t) => Ok(seq![fv] + t),
                Err(e) => Err(e),
            },
        }
    }
}

/// How building an entity from its definition ends: its fields are built in
/// order, then duplicate field names are refused.
pub open spec fn entity_build(o: ObjectDef) -> Result<EntityView, ErrorView> {
    match fields_build(o.fields@) {
        Err(e) => Err(e),
        Ok(fvs) => match entity_new_error(o.name@, fvs.map_values(|f: FieldView| f.name)) {
            Some(e) => Err(e),
            None => Ok(EntityView { name: o.name@, fields: fvs }),
        },
    }
}

impl Entity {
    /// Builds an entity from an object definition.
    pub fn from_object(obj: &ObjectDef) -> (r: Result<Entity, SchemaError>)
        ensures
            match r {
                Result::Ok(en) => entity_build(*obj) == Ok::<EntityView, ErrorView>(en@),
                Result::Err(e) => entity_build(*obj) == Err::<EntityView, ErrorView>(e@),
            },
    {
        let ghost fdefs = obj.fields@;
        let mut fields: Vec<Field> = Vec::new();
        let mut i: usize = 0;
        proof {
            assert(fdefs.skip(0) =~= fdefs);
            assert(fviews(fields@) =~= Seq::<FieldView>::empty());
        }
        while i < obj.fields.len()
            invariant
                i <= obj.fields@.len(),
                fdefs == obj.fields@,
                fields_build(fdefs) == (match fields_build(fdefs.skip(i as int)) {
                    Ok(t) => Ok::<Seq<FieldView>, ErrorView>(fviews(fields@) + t),
                    Err(e) => Err(e),
                }),
            decreases obj.fields@.len() - i,
        {
            proof {
                assert(fdefs.skip(i as int)[0] == fdefs[i as int]);
                assert(fdefs.skip(i as int).drop_first() =~= fdefs.skip(i as int + 1));
            }
            let built = Field::from_obj_field(&obj.fields[i]);
            match built {
                Err(e) => {
                    return Err(e);
                },
                Ok(f) => {
                    let ghost before = fviews(fields@);
                    let ghost fv = f@;
                    fields.push(f);
                    proof {
                        assert(fviews(fields@) =~= before.push(fv));
                        if fields_build(fdefs.skip(i as int + 1)) is Ok {
                            let t = fields_build(fdefs.skip(i as int + 1))->Ok_0;
                            assert(before + (seq![fv] + t) =~= before.push(fv) + t);
                        }
                    }
                },
            }
            i += 1;
        }
        proof {
            assert(fdefs.skip(fdefs.len() as int) =~= Seq::<FieldDef>::empty());
            assert(fviews(fields@) + Seq::<FieldView>::empty() =~= fviews(fields@));
        }
        let ghost fvs = fviews(fields@);
        let built = Entity::new(obj.name.clone(), fields);
        proof {
            assert(crate::validate::field_names_of(fields@) =~= fvs.map_values(
                |f: FieldView| f.name,
            ));
        }
        match built {
            Err(e) => Err(e),
            Ok(en) => {
                proof {
                    assert(en@.fields =~= fvs);
                }
                Ok(en)
            },
        }
    }
}

/// How building an enum from its definition ends.
pub open spec fn enum_build(d: EnumDef) -> Result<EnumView, ErrorView> {
    match enum_new_error(d.name@, views_of(d.values@)) {
        Some(e) => Err(e),
        None => Ok(EnumView { name: d.name@, values: views_of(d.values@) }),
    }
}

impl GraphQLEnum {
    /// Builds an enum from an enum definition.
    pub fn from_enum(enm: &EnumDef) -> (r: Result<GraphQLEnum, SchemaError>)
        ensures
            match r {
                Result::Ok(g) => enum_build(*enm) == Ok::<EnumView, ErrorView>(g@),
                Result::Err(e) => enum_build(*enm) == Err::<EnumView, ErrorView>(e@),
            },
    {
        let mut values: Vec<String> = Vec::new();
        let mut i: usize = 0;
        while i < enm.values.len()
            invariant
                i <= enm.values@.len(),
                values@.len() == i,
                forall|j: int| 0 <= j < i ==> values@[j]@ == enm.values@[j]@,
            decreases enm.values@.len() - i,
        {
            values.push(enm.values[i].clone());
            i += 1;
        }
        proof {
            assert(views_of(values@) =~= views_of(enm.values@));
        }
        GraphQLEnum::new(enm.name.clone(), values)
    }
}

/// How building the entities of a document ends: object definitions build
/// in order, the first failure failing the document; other definitions
/// contribute nothing.
pub open spec fn entities_build(defs: Seq<Definition>) -> Result<Seq<EntityView>, ErrorView>
    decreases defs.len(),
{
    if defs.len() == 0 {
        Ok(Seq::empty())
    } else {
        match defs[0] {
            Definition::Object(o) => match entity_build(o) {
                Err(e) => Err(e),
                Ok(ev) => match entities_build(defs.drop_first()) {
                    Ok(t) => Ok(seq![ev] + t),
                    Err(e) => Err(e),
                },
            },
            Definition::Enum(_) => entities_build(defs.drop_first()),
        }
    }
}

/// How building the enums of a document ends.
pub open spec fn enums_build(defs: Seq<Definition>) -> Result<Seq<EnumView>, ErrorView>
    decreases defs.len(),
{
    if defs.len() == 0 {
        Ok(Seq::empty())
    } else {
        match defs[0] {
            Definition::Enum(d) => match enum_build(d) {
                Err(e) => Err(e),
                Ok(gv) => match enums_build(defs.drop_first()) {
                    Ok(t) => Ok(seq![gv] + t),
                    Err(e) => Err(e),
                },
            },
            Definition::Object(_) => enums_build(defs.drop_first()),
        }
    }
}

/// How building and validating a whole document ends: all entities build,
/// then all enums, then the schema is assembled and validated.
pub open spec fn document_build(d: Document) -> Result<SchemaView, ErrorView> {
    match entities_build(d.definitions@) {
        Err(e) => Err(e),
        Ok(es) => match enums_build(d.definitions@) {
            Err(e) => Err(e),
            Ok(gs) => match schema_new_error(es, gs) {
                Some(e) => Err(e),
                None => Ok(SchemaView { entities: es, enums: gs }),
            },
        },
    }
}

impl Schema {
    /// Builds and validates a schema from a parsed document.
    pub fn from_document(document: &Document) -> (r: Result<Schema, SchemaError>)
        ensures
            match r {
                Result::Ok(s) => document_build(*document) == Ok::<SchemaView, ErrorView>(s@),
                Result::Err(e) => document_build(*document) == Err::<SchemaView, ErrorView>(e@),
            },
    {
        let ghost defs = document.definitions@;
        let mut entities: Vec<Entity> = Vec::new();
        let mut i: usize = 0;
        proof {
            assert(defs.skip(0) =~= defs);
            assert(eviews(entities@) =~= Seq::<EntityView>::empty());
        }
        while i < document.definitions.len()
            invariant
                i <= document.definitions@.len(),
                defs == document.definitions@,
                entities_build(defs) == (match entities_build(defs.skip(i as int)) {
                    Ok(t) => Ok::<Seq<EntityView>, ErrorView>(eviews(entities@) + t),
                    Err(e) => Err(e),
                }),
            decreases document.definitions@.len() - i,
        {
            proof {
                assert(defs.skip(i as int)[0] == defs[i as int]);
                assert(defs.skip(i as int).drop_first() =~= defs.skip(i as int + 1));
            }
            match &document.definitions[i] {
                Definition::Object(obj) => {
                    let built = Entity::from_object(obj);
                    match built {
                        Err(e) => {
                            return Err(e);
                        },
                        Ok(en) => {
                            let ghost before = eviews(entities@);
                            let ghost ev = en@;
                            entities.push(en);
                            proof {
                                assert(eviews(entities@) =~= before.push(ev));
                                if entities_build(defs.skip(i as int + 1)) is Ok {
                                    let t = entities_build(defs.skip(i as int + 1))->Ok_0;
                                    assert(before + (seq![ev] + t) =~= before.push(ev) + t);
                                }
                            }
                        },
                    }
                },
                Definition::Enum(_) => {},
            }
            i += 1;
        }
        proof {
            assert(defs.skip(defs.len() as int) =~= Seq::<Definition>::empty());
            assert(eviews(entities@) + Seq::<EntityView>::empty() =~= eviews(entities@));
        }
        let mut enums: Vec<GraphQLEnum> = Vec::new();
        let mut k: usize = 0;
        proof {
            assert(gviews(enums@) =~= Seq::<EnumView>::empty());
        }
        while k < document.definitions.len()
            invariant
                k <= document.definitions@.len(),
                defs == document.definitions@,
                entities_build(defs) == Ok::<Seq<EntityView>, ErrorView>(eviews(entities@)),
                enums_build(defs) == (match enums_build(defs.skip(k as int)) {
                    Ok(t) => Ok::<Seq<EnumView>, ErrorView>(gviews(enums@) + t),
                    Err(e) => Err(e),
                }),
            decreases document.definitions@.len() - k,
        {
            proof {
                assert(defs.skip(k as int)[0] == defs[k as int]);
                assert(defs.skip(k as int).drop_first() =~= defs.skip(k as int + 1));
            }
            match &document.definitions[k] {
                Definition::Enum(d) => {
                    let built = GraphQLEnum::from_enum(d);
                    match built {
                        Err(e) => {
                            return Err(e);
                        },
                        Ok(g) => {
                            let ghost before = gviews(enums@);
                            let ghost gv = g@;
                            enums.push(g);
                            proof {
                                assert(gviews(enums@) =~= before.push(gv));
                                if enums_build(defs.skip(k as int + 1)) is Ok {
                                    let t = enums_build(defs.skip(k as int + 1))->Ok_0;
                                    assert(before + (seq![gv] + t) =~= before.push(gv) + t);
                                }
                            }
                        },
                    }
                },
                Definition::Object(_) => {},
            }
            k += 1;
        }
        proof {
            assert(gviews(enums@) + Seq::<EnumView>::empty() =~= gviews(enums@));
        }
        Schema::new(entities, enums)
    }
}

} // verus!
