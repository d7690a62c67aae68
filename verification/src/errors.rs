//! Structured errors for schema building and validation: each variant is a
//! stable error identity, carrying the offending identifiers.

use vstd::prelude::*;

verus! {

/// Mathematical model of a schema error, with identifiers as character
/// sequences.
#[verifier::ext_equal]
pub enum ErrorView {
    /// An enum type name collides with a framework-internal reserved name.
    ReservedEnumNames { names: Seq<Seq<char>> },
    /// A schema name (enum name, enum value, entity name or field name) is a
    /// reserved word.
    ReservedWords { names: Seq<Seq<char>> },
    /// A name denotes both an enum and an entity.
    DuplicateTypeDefNames { names: Seq<Seq<char>> },
    /// Two entities share one name.
    DuplicateEntityNames { names: Seq<Seq<char>> },
    /// Two enums share one name.
    DuplicateEnumNames { names: Seq<Seq<char>> },
    /// Two fields of one entity share one name.
    DuplicateFieldNames { entity: Seq<char>, names: Seq<Seq<char>> },
    /// An enum declares one value twice.
    DuplicateEnumValues { enum_name: Seq<char>, values: Seq<Seq<char>> },
    /// An enum name or value does not match the storage-identifier grammar.
    InvalidStorageNames { names: Seq<Seq<char>> },
    /// More than one derive directive on one field.
    MultipleDerivedFromDirectives { field: Seq<char> },
    /// A derive directive without its required field argument.
    MissingDerivedFromFieldArg { field: Seq<char> },
    /// A derive directive whose field argument is not a string.
    NonStringDerivedFromFieldArg { field: Seq<char> },
    /// A derived field whose declared shape is not a non-null list of
    /// non-null entities.
    InvalidDerivedFromStructure { field: Seq<char> },
    /// A referenced type definition that no entity or enum declares.
    UnknownTypeDef { name: Seq<char> },
    /// A referenced name that both an entity and an enum declare.
    AmbiguousTypeDef { name: Seq<char> },
    /// A derived field that targets an enum instead of an entity.
    DerivedFromEnum { enum_name: Seq<char>, field: Seq<char> },
    /// A derived field whose target field does not exist on the target
    /// entity.
    DerivedFieldMissing { entity: Seq<char>, field: Seq<char> },
    /// A derived field whose target field is neither ID, String, nor a
    /// reciprocal entity reference.
    IllegalRelationalKeyType { entity: Seq<char>, field: Seq<char> },
    /// A nullable scalar directly inside a list.
    NullableScalarInList { scalar: Seq<char> },
    /// A nullable list directly inside a list.
    NullableListInList,
    /// A list whose element type names an entity directly.
    ArrayOfEntities { entity: Seq<char> },
    /// A non-null wrapper directly inside a non-null wrapper.
    NestedNonNull,
    /// A list shape that validation should have rejected reached a
    /// projector.
    ListProjectionInvariant,
    /// A tuple parameter kind, which has no field-type image.
    UnsupportedTuple,
}

/// A schema error: a stable variant plus the offending identifiers.
#[derive(Debug, PartialEq, Eq)]
pub enum SchemaError {
    ReservedEnumNames { names: Vec<String> },
    ReservedWords { names: Vec<String> },
    DuplicateTypeDefNames { names: Vec<String> },
    DuplicateEntityNames { names: Vec<String> },
    DuplicateEnumNames { names: Vec<String> },
    DuplicateFieldNames { entity: String, names: Vec<String> },
    DuplicateEnumValues { enum_name: String, values: Vec<String> },
    InvalidStorageNames { names: Vec<String> },
    MultipleDerivedFromDirectives { field: String },
    MissingDerivedFromFieldArg { field: String },
    NonStringDerivedFromFieldArg { field: String },
    InvalidDerivedFromStructure { field: String },
    UnknownTypeDef { name: String },
    AmbiguousTypeDef { name: String },
    DerivedFromEnum { enum_name: String, field: String },
    DerivedFieldMissing { entity: String, field: String },
    IllegalRelationalKeyType { entity: String, field: String },
    NullableScalarInList { scalar: String },
    NullableListInList,
    ArrayOfEntities { entity: String },
    NestedNonNull,
    ListProjectionInvariant,
    UnsupportedTuple,
}

impl View for SchemaError {
    type V = ErrorView;

    open spec fn view(&self) -> ErrorView {
        match self {
            SchemaError::ReservedEnumNames { names } => ErrorView::ReservedEnumNames {
                names: names@.map_values(|s: String| s@),
            },
            SchemaError::ReservedWords { names } => ErrorView::ReservedWords {
                names: names@.map_values(|s: String| s@),
            },
            SchemaError::DuplicateTypeDefNames { names } => ErrorView::DuplicateTypeDefNames {
                names: names@.map_values(|s: String| s@),
            },
            SchemaError::DuplicateEntityNames { names } => ErrorView::DuplicateEntityNames {
                names: names@.map_values(|s: String| s@),
            },
            SchemaError::DuplicateEnumNames { names } => ErrorView::DuplicateEnumNames {
                names: names@.map_values(|s: String| s@),
            },
            SchemaError::DuplicateFieldNames { entity, names } => ErrorView::DuplicateFieldNames {
                entity: entity@,
                names: names@.map_values(|s: String| s@),
            },
            SchemaError::DuplicateEnumValues { enum_name, values } => ErrorView::DuplicateEnumValues {
                enum_name: enum_name@,
                values: values@.map_values(|s: String| s@),
            },
            SchemaError::InvalidStorageNames { names } => ErrorView::InvalidStorageNames {
                names: names@.map_values(|s: String| s@),
            },
            SchemaError::MultipleDerivedFromDirectives { field } => ErrorView::MultipleDerivedFromDirectives {
                field: field@,
            },
            SchemaError::MissingDerivedFromFieldArg { field } => ErrorView::MissingDerivedFromFieldArg {
                field: field@,
            },
            SchemaError::NonStringDerivedFromFieldArg { field } => ErrorView::NonStringDerivedFromFieldArg {
                field: field@,
            },
            SchemaError::InvalidDerivedFromStructure { field } => ErrorView::InvalidDerivedFromStructure {
                field: field@,
            },
            SchemaError::UnknownTypeDef { name } => ErrorView::UnknownTypeDef { name: name@ },
            SchemaError::AmbiguousTypeDef { name } => ErrorView::AmbiguousTypeDef { name: name@ },
            SchemaError::DerivedFromEnum { enum_name, field } => ErrorView::DerivedFromEnum {
                enum_name: enum_name@,
                field: field@,
            },
            SchemaError::DerivedFieldMissing { entity, field } => ErrorView::DerivedFieldMissing {
                entity: entity@,
                field: field@,
            },
            SchemaError::IllegalRelationalKeyType { entity, field } => ErrorView::IllegalRelationalKeyType {
                entity: entity@,
                field: field@,
            },
            SchemaError::NullableScalarInList { scalar } => ErrorView::NullableScalarInList {
                scalar: scalar@,
            },
            SchemaError::NullableListInList => ErrorView::NullableListInList,
            SchemaError::ArrayOfEntities { entity } => ErrorView::ArrayOfEntities { entity: entity@ },
            SchemaError::NestedNonNull => ErrorView::NestedNonNull,
            SchemaError::ListProjectionInvariant => ErrorView::ListProjectionInvariant,
            SchemaError::UnsupportedTuple => ErrorView::UnsupportedTuple,
        }
    }
}

} // verus!
