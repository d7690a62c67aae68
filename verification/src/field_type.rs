//! The recursive field-type algebra: scalars, lists and non-null wrappers,
//! together with their canonical display strings.

use vstd::prelude::*;
use vstd::string::StrSliceExecFns;
use vstd::string::StringExecFns;
use crate::ident::str_eq;

verus! {

/// Mathematical model of a scalar kind.
#[verifier::ext_equal]
pub enum ScalarView {
    Id,
    Str,
    Int,
    Float,
    Boolean,
    BigInt,
    Bytes,
    Custom(Seq<char>),
}

/// Mathematical model of the recursive field-type algebra.
#[verifier::ext_equal]
pub enum TypeView {
    Single(ScalarView),
    List(Box<TypeView>),
    NonNull(Box<TypeView>),
}

/// An atomic value kind: one of the built-in scalars, or a reference to an
/// entity or enum by name.
#[derive(Debug, PartialEq, Eq)]
pub enum GqlScalar {
    ID,
    String,
    Int,
    Float,
    Boolean,
    BigInt,
    Bytes,
    Custom(String),
}

impl View for GqlScalar {
    type V = ScalarView;

    open spec fn view(&self) -> ScalarView {
        match self {
            GqlScalar::ID => ScalarView::Id,
            GqlScalar::String => ScalarView::Str,
            GqlScalar::Int => ScalarView::Int,
            GqlScalar::Float => ScalarView::Float,
            GqlScalar::Boolean => ScalarView::Boolean,
            GqlScalar::BigInt => ScalarView::BigInt,
            GqlScalar::Bytes => ScalarView::Bytes,
            GqlScalar::Custom(name) => ScalarView::Custom(name@),
        }
    }
}

impl Clone for GqlScalar {
    fn clone(&self) -> (r: Self)
        ensures
            r@ == self@,
    {
        match self {
            GqlScalar::ID => GqlScalar::ID,
            GqlScalar::String => GqlScalar::String,
            GqlScalar::Int => GqlScalar::Int,
            GqlScalar::Float => GqlScalar::Float,
            GqlScalar::Boolean => GqlScalar::Boolean,
            GqlScalar::BigInt => GqlScalar::BigInt,
            GqlScalar::Bytes => GqlScalar::Bytes,
            GqlScalar::Custom(name) => GqlScalar::Custom(name.clone()),
        }
    }
}

/// The scalar that a type name denotes: a built-in scalar under its fixed
/// name, any other name a custom reference.
pub open spec fn scalar_of_name(n: Seq<char>) -> ScalarView {
    if n == "ID"@ {
        ScalarView::Id
    } else if n == "String"@ {
        ScalarView::Str
    } else if n == "Int"@ {
        ScalarView::Int
    } else if n == "Float"@ {
        ScalarView::Float
    } else if n == "Boolean"@ {
        ScalarView::Boolean
    } else if n == "BigInt"@ {
        ScalarView::BigInt
    } else if n == "Bytes"@ {
        ScalarView::Bytes
    } else {
        ScalarView::Custom(n)
    }
}

/// The canonical display name of a scalar.
pub open spec fn scalar_display(s: ScalarView) -> Seq<char> {
    match s {
        ScalarView::Id => "ID"@,
        ScalarView::Str => "String"@,
        ScalarView::Int => "Int"@,
        ScalarView::Float => "Float"@,
        ScalarView::Boolean => "Boolean"@,
        ScalarView::BigInt => "BigInt"@,
        ScalarView::Bytes => "Bytes"@,
        ScalarView::Custom(n) => n,
    }
}

impl GqlScalar {
    pub fn from_str(s: &str) -> (r: Self)
        ensures
            r@ == scalar_of_name(s@),
    {
        if str_eq(s, "ID") {
            GqlScalar::ID
        } else if str_eq(s, "String") {
            GqlScalar::String
        } else if str_eq(s, "Int") {
            GqlScalar::Int
        } else if str_eq(s, "Float") {
            GqlScalar::Float
        } else if str_eq(s, "Boolean") {
            GqlScalar::Boolean
        } else if str_eq(s, "BigInt") {
            GqlScalar::BigInt
        } else if str_eq(s, "Bytes") {
            GqlScalar::Bytes
        } else {
            GqlScalar::Custom(s.to_owned())
        }
    }

    pub fn to_string(&self) -> (r: String)
        ensures
            r@ == scalar_display(self@),
    {
        match self {
            GqlScalar::ID => "ID".to_owned(),
            GqlScalar::String => "String".to_owned(),
            GqlScalar::Int => "Int".to_owned(),
            GqlScalar::Float => "Float".to_owned(),
            GqlScalar::Boolean => "Boolean".to_owned(),
            GqlScalar::BigInt => "BigInt".to_owned(),
            GqlScalar::Bytes => "Bytes".to_owned(),
            GqlScalar::Custom(name) => name.clone(),
        }
    }
}

/// A user-declared field type: a scalar, a list, or a non-null wrapper.
#[derive(Debug, PartialEq, Eq)]
pub enum UserDefinedFieldType {
    Single(GqlScalar),
    ListType(Box<UserDefinedFieldType>),
    NonNullType(Box<UserDefinedFieldType>),
}

impl UserDefinedFieldType {
    /// The mathematical model of a type.
    pub open spec fn model(self) -> TypeView
        decreases self,
    {
        match self {
            UserDefinedFieldType::Single(s) => TypeView::Single(s@),
            UserDefinedFieldType::ListType(inner) => TypeView::List(Box::new((*inner).model())),
            UserDefinedFieldType::NonNullType(inner) => TypeView::NonNull(
                Box::new((*inner).model()),
            ),
        }
    }
}

impl View for UserDefinedFieldType {
    type V = TypeView;

    open spec fn view(&self) -> TypeView {
        self.model()
    }
}

impl Clone for UserDefinedFieldType {
    fn clone(&self) -> (r: Self)
        ensures
            r@ == self@,
        decreases self,
    {
        match self {
            UserDefinedFieldType::Single(s) => UserDefinedFieldType::Single(s.clone()),
            UserDefinedFieldType::ListType(inner) => UserDefinedFieldType::ListType(
                Box::new((**inner).clone()),
            ),
            UserDefinedFieldType::NonNullType(inner) => UserDefinedFieldType::NonNullType(
                Box::new((**inner).clone()),
            ),
        }
    }
}

/// Whether a type is optional: everything but a non-null wrapper.
pub open spec fn spec_is_optional(t: TypeView) -> bool {
    !(t is NonNull)
}

/// Whether a type contains a list at any wrapping depth.
pub open spec fn spec_is_array(t: TypeView) -> bool
    decreases t,
{
    match t {
        TypeView::Single(_) => false,
        TypeView::List(_) => true,
        TypeView::NonNull(inner) => spec_is_array(*inner),
    }
}

/// The scalar under all list and non-null wrappers.
pub open spec fn underlying_scalar(t: TypeView) -> ScalarView
    decreases t,
{
    match t {
        TypeView::Single(s) => s,
        TypeView::List(inner) => underlying_scalar(*inner),
        TypeView::NonNull(inner) => underlying_scalar(*inner),
    }
}

/// The canonical display string of a type: a list as `[T]`, a non-null
/// wrapper as `T!`.
pub open spec fn type_display(t: TypeView) -> Seq<char>
    decreases t,
{
    match t {
        TypeView::Single(s) => scalar_display(s),
        TypeView::List(inner) => "["@ + type_display(*inner) + "]"@,
        TypeView::NonNull(inner) => type_display(*inner) + "!"@,
    }
}

/// The entity name of a type in the only legal shape of a derived field:
/// a non-null list of non-null named types.
pub open spec fn spec_derived_from_entity_name(t: TypeView) -> Option<Seq<char>> {
    match t {
        TypeView::NonNull(a) => match *a {
            TypeView::List(b) => match *b {
                TypeView::NonNull(c) => match *c {
                    TypeView::Single(s) => match s {
                        ScalarView::Custom(name) => Some(name),
                        _ => None,
                    },
                    _ => None,
                },
                _ => None,
            },
            _ => None,
        },
        _ => None,
    }
}

impl UserDefinedFieldType {
    /// A type is optional unless a non-null wrapper stands outermost.
    pub fn is_optional(&self) -> (r: bool)
        ensures
            r == spec_is_optional(self@),
    {
        !(matches!(self, UserDefinedFieldType::NonNullType(_)))
    }

    pub fn is_array(&self) -> (r: bool)
        ensures
            r == spec_is_array(self@),
        decreases *self,
    {
        match self {
            UserDefinedFieldType::ListType(_) => true,
            UserDefinedFieldType::NonNullType(inner) => inner.is_array(),
            UserDefinedFieldType::Single(_) => false,
        }
    }

    pub fn get_underlying_scalar(&self) -> (r: &GqlScalar)
        ensures
            r@ == underlying_scalar(self@),
        decreases *self,
    {
        match self {
            UserDefinedFieldType::Single(s) => s,
            UserDefinedFieldType::ListType(inner) => inner.get_underlying_scalar(),
            UserDefinedFieldType::NonNullType(inner) => inner.get_underlying_scalar(),
        }
    }

    pub fn to_string(&self) -> (r: String)
        ensures
            r@ == type_display(self@),
        decreases *self,
    {
        match self {
            UserDefinedFieldType::Single(s) => s.to_string(),
            UserDefinedFieldType::ListType(inner) => {
                let mut out = "[".to_owned();
                let inner_str = inner.to_string();
                out.append(inner_str.as_str());
                out.append("]");
                out
            },
            UserDefinedFieldType::NonNullType(inner) => {
                let mut out = inner.to_string();
                out.append("!");
                out
            },
        }
    }

    /// The name of the related entity when the type has the shape required
    /// of a derived field, a non-null list of non-null named types; `None`
    /// for every other shape.
    pub fn get_name_of_derived_from_entity(&self) -> (r: Option<String>)
        ensures
            match r {
                Option::Some(name) => spec_derived_from_entity_name(self@) == Some(name@),
                Option::None => spec_derived_from_entity_name(self@) is None,
            },
    {
        proof {
            reveal_with_fuel(UserDefinedFieldType::model, 5);
        }
        match self {
            UserDefinedFieldType::NonNullType(a) => match &**a {
                UserDefinedFieldType::ListType(b) => match &**b {
                    UserDefinedFieldType::NonNullType(c) => match &**c {
                        UserDefinedFieldType::Single(GqlScalar::Custom(name)) => Some(name.clone()),
                        _ => None,
                    },
                    _ => None,
                },
                _ => None,
            },
            _ => None,
        }
    }
}


/// Mathematical model of a field's type: a declared type or a derived
/// back-reference.
#[verifier::ext_equal]
pub enum FieldTypeView {
    Derived { entity_name: Seq<char>, derived_from_field: Seq<char> },
    Regular(TypeView),
}

/// A field's type: either a regular declared type, or a virtual
/// back-reference derived from a field of another entity.
#[derive(Debug, PartialEq, Eq)]
pub enum FieldType {
    DerivedFromField { entity_name: String, derived_from_field: String },
    RegularField(UserDefinedFieldType),
}

impl View for FieldType {
    type V = FieldTypeView;

    open spec fn view(&self) -> FieldTypeView {
        match self {
            FieldType::DerivedFromField { entity_name, derived_from_field } => FieldTypeView::Derived {
                entity_name: entity_name@,
                derived_from_field: derived_from_field@,
            },
            FieldType::RegularField(t) => FieldTypeView::Regular(t@),
        }
    }
}

impl Clone for FieldType {
    fn clone(&self) -> (r: Self)
        ensures
            r@ == self@,
    {
        match self {
            FieldType::DerivedFromField { entity_name, derived_from_field } => FieldType::DerivedFromField {
                entity_name: entity_name.clone(),
                derived_from_field: derived_from_field.clone(),
            },
            FieldType::RegularField(t) => FieldType::RegularField(t.clone()),
        }
    }
}

/// The declared type that a field's type stands for: a derived field reads
/// as a non-null list of non-null references to its entity.
pub open spec fn field_type_as_type(ft: FieldTypeView) -> TypeView {
    match ft {
        FieldTypeView::Regular(t) => t,
        FieldTypeView::Derived { entity_name, .. } => TypeView::NonNull(
            Box::new(
                TypeView::List(
                    Box::new(
                        TypeView::NonNull(
                            Box::new(TypeView::Single(ScalarView::Custom(entity_name))),
                        ),
                    ),
                ),
            ),
        ),
    }
}

/// The display string of a field's type; a derived field carries its
/// directive, whose argument is the target field name.
pub open spec fn field_type_display(ft: FieldTypeView) -> Seq<char> {
    match ft {
        FieldTypeView::Regular(t) => type_display(t),
        FieldTypeView::Derived { derived_from_field, .. } => type_display(field_type_as_type(ft))
            + " @derivedFrom(field: \""@ + derived_from_field + "\")"@,
    }
}

/// Whether a field's type contains a list; a derived field always does.
pub open spec fn spec_field_is_array(ft: FieldTypeView) -> bool {
    match ft {
        FieldTypeView::Derived { .. } => true,
        FieldTypeView::Regular(t) => spec_is_array(t),
    }
}

impl FieldType {
    /// The declared type that this field's type stands for.
    pub fn to_user_defined_field_type(&self) -> (r: UserDefinedFieldType)
        ensures
            r@ == field_type_as_type(self@),
    {
        proof {
            reveal_with_fuel(UserDefinedFieldType::model, 5);
        }
        match self {
            FieldType::RegularField(t) => t.clone(),
            FieldType::DerivedFromField { entity_name, .. } => UserDefinedFieldType::NonNullType(
                Box::new(
                    UserDefinedFieldType::ListType(
                        Box::new(
                            UserDefinedFieldType::NonNullType(
                                Box::new(
                                    UserDefinedFieldType::Single(
                                        GqlScalar::Custom(entity_name.clone()),
                                    ),
                                ),
                            ),
                        ),
                    ),
                ),
            ),
        }
    }

    pub fn is_optional(&self) -> (r: bool)
        ensures
            r == spec_is_optional(field_type_as_type(self@)),
    {
        self.to_user_defined_field_type().is_optional()
    }

    pub fn is_derived_from(&self) -> (r: bool)
        ensures
            r == (self@ is Derived),
    {
        matches!(self, FieldType::DerivedFromField { .. })
    }

    pub fn is_array(&self) -> (r: bool)
        ensures
            r == spec_field_is_array(self@),
    {
        match self {
            FieldType::DerivedFromField { .. } => true,
            FieldType::RegularField(t) => t.is_array(),
        }
    }

    pub fn get_underlying_scalar(&self) -> (r: GqlScalar)
        ensures
            r@ == underlying_scalar(field_type_as_type(self@)),
    {
        self.to_user_defined_field_type().get_underlying_scalar().clone()
    }

    pub fn to_string(&self) -> (r: String)
        ensures
            r@ == field_type_display(self@),
    {
        match self {
            FieldType::DerivedFromField { derived_from_field, .. } => {
                let mut out = self.to_user_defined_field_type().to_string();
                out.append(" @derivedFrom(field: \"");
                out.append(derived_from_field.as_str());
                out.append("\")");
                out
            },
            FieldType::RegularField(t) => t.to_string(),
        }
    }
}

/// A primitive contract-parameter kind, as an external ABI parser reports
/// it.
#[derive(Debug, PartialEq, Eq)]
pub enum AbiParamKind {
    Uint(usize),
    Int(usize),
    Bool,
    Address,
    Bytes,
    String,
    FixedBytes(usize),
    Array(Box<AbiParamKind>),
    FixedArray(Box<AbiParamKind>, usize),
    Tuple(Vec<AbiParamKind>),
}

/// The field type that a contract-parameter kind converts to: integers to
/// non-null big integers, booleans to non-null booleans, address-like and
/// string-like kinds to non-null strings, arrays to non-null lists of the
/// converted element; tuples have no image.
pub open spec fn abi_to_type(k: AbiParamKind) -> Option<TypeView>
    decreases k,
{
    match k {
        AbiParamKind::Uint(_) => Some(
            TypeView::NonNull(Box::new(TypeView::Single(ScalarView::BigInt))),
        ),
        AbiParamKind::Int(_) => Some(
            TypeView::NonNull(Box::new(TypeView::Single(ScalarView::BigInt))),
        ),
        AbiParamKind::Bool => Some(
            TypeView::NonNull(Box::new(TypeView::Single(ScalarView::Boolean))),
        ),
        AbiParamKind::Address => Some(
            TypeView::NonNull(Box::new(TypeView::Single(ScalarView::Str))),
        ),
        AbiParamKind::Bytes => Some(
            TypeView::NonNull(Box::new(TypeView::Single(ScalarView::Str))),
        ),
        AbiParamKind::String => Some(
            TypeView::NonNull(Box::new(TypeView::Single(ScalarView::Str))),
        ),
        AbiParamKind::FixedBytes(_) => Some(
            TypeView::NonNull(Box::new(TypeView::Single(ScalarView::Str))),
        ),
        AbiParamKind::Array(inner) => match abi_to_type(*inner) {
            Some(t) => Some(TypeView::NonNull(Box::new(TypeView::List(Box::new(t))))),
            None => None,
        },
        AbiParamKind::FixedArray(inner, _) => match abi_to_type(*inner) {
            Some(t) => Some(TypeView::NonNull(Box::new(TypeView::List(Box::new(t))))),
            None => None,
        },
        AbiParamKind::Tuple(_) => None,
    }
}

impl UserDefinedFieldType {
    pub fn from_ethabi_type(abi_type: &AbiParamKind) -> (r: Result<Self, crate::errors::SchemaError>)
        ensures
            match r {
                Result::Ok(t) => abi_to_type(*abi_type) == Some(t@),
                Result::Err(e) => abi_to_type(*abi_type) is None && e@
                    == crate::errors::ErrorView::UnsupportedTuple,
            },
        decreases *abi_type,
    {
        proof {
            reveal_with_fuel(UserDefinedFieldType::model, 3);
        }
        match abi_type {
            AbiParamKind::Uint(_size) | AbiParamKind::Int(_size) => Ok(
                UserDefinedFieldType::NonNullType(
                    Box::new(UserDefinedFieldType::Single(GqlScalar::BigInt)),
                ),
            ),
            AbiParamKind::Bool => Ok(
                UserDefinedFieldType::NonNullType(
                    Box::new(UserDefinedFieldType::Single(GqlScalar::Boolean)),
                ),
            ),
            AbiParamKind::Address | AbiParamKind::Bytes | AbiParamKind::String
                | AbiParamKind::FixedBytes(_) => Ok(
                UserDefinedFieldType::NonNullType(
                    Box::new(UserDefinedFieldType::Single(GqlScalar::String)),
                ),
            ),
            AbiParamKind::Array(inner) => {
                let inner_type = Self::from_ethabi_type(inner)?;
                Ok(
                    UserDefinedFieldType::NonNullType(
                        Box::new(UserDefinedFieldType::ListType(Box::new(inner_type))),
                    ),
                )
            },
            AbiParamKind::FixedArray(inner, _len) => {
                let inner_type = Self::from_ethabi_type(inner)?;
                Ok(
                    UserDefinedFieldType::NonNullType(
                        Box::new(UserDefinedFieldType::ListType(Box::new(inner_type))),
                    ),
                )
            },
            AbiParamKind::Tuple(_abi_types) => Err(crate::errors::SchemaError::UnsupportedTuple),
        }
    }
}

impl FieldType {
    pub fn from_ethabi_type(abi_type: &AbiParamKind) -> (r: Result<Self, crate::errors::SchemaError>)
        ensures
            match r {
                Result::Ok(ft) => ft@ is Regular && abi_to_type(*abi_type) == Some(
                    field_type_as_type(ft@),
                ),
                Result::Err(e) => abi_to_type(*abi_type) is None && e@
                    == crate::errors::ErrorView::UnsupportedTuple,
            },
    {
        Ok(FieldType::RegularField(UserDefinedFieldType::from_ethabi_type(abi_type)?))
    }
}

} // verus!
