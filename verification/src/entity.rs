//! What the wrapper makes of the raw values libclang reports about AST entities.

use vstd::prelude::*;

use crate::error::OffsetofError;
use crate::ffi::CXTemplateArgumentKind;
use crate::kind::{Availability, EntityKind};
use crate::options::{ObjCAttributes, ObjCQualifiers};
use crate::utility::{nonempty, to_string_option};

verus! {

//================================================
// Enums
//================================================

// TemplateArgument ______________________________

/// An argument to a template function specialization, whose types are of type `T`.
#[derive(Copy, Clone, Debug, PartialEq, Eq)]
pub enum TemplateArgument<T> {
    /// A declaration for a pointer, reference, or member pointer non-type template parameter.
    Declaration,
    /// An expression that has not yet been resolved
    Expression,
    /// An empty template argument (e.g., one that has not yet been deduced).
    Null,
    /// A null pointer or null member pointer provided for a non-type template parameter.
    Nullptr,
    /// A parameter pack.
    Pack,
    /// A name for a template provided for a template template parameter.
    Template,
    /// A pack expansion of a name for a template provided for a template template parameter.
    TemplateExpansion,
    /// An integer.
    Integral(i64, u64),
    /// A type.
    Type(T),
}

impl<T> TemplateArgument<T> {
    /// Whether libclang denotes a template argument by the kind `kind`.
    pub open spec fn is_argument_kind(kind: int) -> bool {
        0 <= kind <= 8
    }

    /// The template argument libclang describes by the kind `kind`, together with the argument's
    /// type (for a type argument) and its signed and unsigned values (for an integral argument).
    pub open spec fn described(kind: int, type_: Option<T>, values: Option<(i64, u64)>) -> Self {
        if kind == 0 {
            TemplateArgument::Null
        } else if kind == 1 {
            TemplateArgument::Type(type_.unwrap())
        } else if kind == 2 {
            TemplateArgument::Declaration
        } else if kind == 3 {
            TemplateArgument::Nullptr
        } else if kind == 4 {
            TemplateArgument::Integral(values.unwrap().0, values.unwrap().1)
        } else if kind == 5 {
            TemplateArgument::Template
        } else if kind == 6 {
            TemplateArgument::TemplateExpansion
        } else if kind == 7 {
            TemplateArgument::Expression
        } else {
            TemplateArgument::Pack
        }
    }

    /// Returns the template argument libclang describes by the kind `kind`, together with the
    /// argument's type (for a type argument) and its signed and unsigned values (for an integral
    /// argument).
    pub fn from_raw(kind: i32, type_: Option<T>, values: Option<(i64, u64)>) -> (argument: Self)
        requires
            Self::is_argument_kind(kind as int),
            kind == 1 ==> type_ is Some,
            kind == 4 ==> values is Some,
        ensures
            argument == Self::described(kind as int, type_, values),
    {
        match CXTemplateArgumentKind::from_raw(kind).unwrap() {
            CXTemplateArgumentKind::Null => TemplateArgument::Null,
            CXTemplateArgumentKind::Type => TemplateArgument::Type(type_.unwrap()),
            CXTemplateArgumentKind::Declaration => TemplateArgument::Declaration,
            CXTemplateArgumentKind::NullPtr => TemplateArgument::Nullptr,
            CXTemplateArgumentKind::Integral => {
                let (signed, unsigned) = values.unwrap();
                TemplateArgument::Integral(signed, unsigned)
            },
            CXTemplateArgumentKind::Template => TemplateArgument::Template,
            CXTemplateArgumentKind::TemplateExpansion => TemplateArgument::TemplateExpansion,
            CXTemplateArgumentKind::Expression => TemplateArgument::Expression,
            _ => TemplateArgument::Pack,
        }
    }
}

/// The template argument that libclang's template argument kind `kind` names, with the type
/// `type_` and the values `values`.
pub open spec fn argument_named<T>(
    kind: CXTemplateArgumentKind,
    type_: Option<T>,
    values: Option<(i64, u64)>,
) -> TemplateArgument<T> {
    match kind {
        CXTemplateArgumentKind::Null => TemplateArgument::Null,
        CXTemplateArgumentKind::Type => TemplateArgument::Type(type_.unwrap()),
        CXTemplateArgumentKind::Declaration => TemplateArgument::Declaration,
        CXTemplateArgumentKind::NullPtr => TemplateArgument::Nullptr,
        CXTemplateArgumentKind::Integral => TemplateArgument::Integral(
            values.unwrap().0,
            values.unwrap().1,
        ),
        CXTemplateArgumentKind::Template => TemplateArgument::Template,
        CXTemplateArgumentKind::TemplateExpansion => TemplateArgument::TemplateExpansion,
        CXTemplateArgumentKind::Expression => TemplateArgument::Expression,
        _ => TemplateArgument::Pack,
    }
}

/// The template argument read from a kind is the argument of libclang's kind with that value.
pub proof fn lemma_argument_of_kind<T>(
    kind: CXTemplateArgumentKind,
    type_: Option<T>,
    values: Option<(i64, u64)>,
)
    requires
        kind != CXTemplateArgumentKind::Invalid,
    ensures
        TemplateArgument::<T>::is_argument_kind(kind.code()),
        TemplateArgument::<T>::described(kind.code(), type_, values) == argument_named(
            kind,
            type_,
            values,
        ),
{
}

//================================================
// Structs
//================================================

// ExternalSymbol ________________________________

/// An `external_source_symbol` attribute.
#[derive(Clone, Debug, PartialEq, Eq, Hash)]
pub struct ExternalSymbol {
    /// The `language` string from this attribute.
    pub language: String,
    /// The `definedIn` string from this attribute.
    pub defined: String,
    /// Whether `generated_declaration` is set for this attribute.
    pub generated: bool,
}

// PlatformAvailability __________________________

/// The availability of an AST entity on a particular platform.
#[derive(Clone, Debug, PartialEq, Eq, Hash)]
pub struct PlatformAvailability {
    /// The name of the platform.
    pub platform: String,
    /// Whether the AST entity is unavailable on the platform.
    pub unavailable: bool,
    /// The version of the platform in which this AST entity was introduced, if any.
    pub introduced: Option<Version>,
    /// The version of the platform in which this AST entity was deprecated, if any.
    pub deprecated: Option<Version>,
    /// The version of the platform in which this AST entity was obsoleted, if any.
    pub obsoleted: Option<Version>,
    /// A message to display to users (e.g., replacement API suggestions).
    pub message: Option<String>,
}

impl PlatformAvailability {
    /// Returns the availability libclang reports for a platform: the platform's name, whether the
    /// entity is unavailable there (nonzero), the `(major, minor, subminor)` numbers of the
    /// versions it was introduced, deprecated, and obsoleted in, and the message (absent when
    /// libclang reports a null string).
    pub fn from_raw(
        platform: String,
        unavailable: i32,
        introduced: (i32, i32, i32),
        deprecated: (i32, i32, i32),
        obsoleted: (i32, i32, i32),
        message: Option<String>,
    ) -> (availability: PlatformAvailability)
        ensures
            availability.platform == platform,
            availability.unavailable == (unavailable != 0),
            availability.introduced == Version::reported(introduced.0, introduced.1, introduced.2),
            availability.deprecated == Version::reported(deprecated.0, deprecated.1, deprecated.2),
            availability.obsoleted == Version::reported(obsoleted.0, obsoleted.1, obsoleted.2),
            availability.message == nonempty(message),
    {
        PlatformAvailability {
            platform,
            unavailable: unavailable != 0,
            introduced: Version::from_raw_option(introduced.0, introduced.1, introduced.2),
            deprecated: Version::from_raw_option(deprecated.0, deprecated.1, deprecated.2),
            obsoleted: Version::from_raw_option(obsoleted.0, obsoleted.1, obsoleted.2),
            message: to_string_option(message),
        }
    }
}

// Target ________________________________________

/// Information about the target for a translation unit.
#[derive(Clone, Debug, PartialEq, Eq, Hash)]
pub struct Target {
    /// The normalized target triple for the target.
    pub triple: String,
    /// The width of a pointer in the target in bits.
    pub pointer_width: usize,
}

// Usr ___________________________________________

/// A Unified Symbol Resolution (USR).
///
/// A USR identifies an AST entity and can be used to compare AST entities from different
/// translation units.
#[derive(Clone, Debug, PartialEq, Eq, PartialOrd, Ord, Hash)]
pub struct Usr(pub String);

// Version _______________________________________

/// A version number in the form `x.y.z`.
#[derive(Copy, Clone, Debug, PartialEq, Eq, Hash, Structural)]
pub struct Version {
    /// The `x` component of the version number.
    pub x: u32,
    /// The `y` component of the version number.
    pub y: Option<u32>,
    /// The `z` component of the version number.
    pub z: Option<u32>,
}

impl Version {
    /// The version libclang reports as the numbers `major`, `minor`, and `subminor`: a negative
    /// minor or subminor number denotes an absent component.
    pub open spec fn numbered(major: i32, minor: i32, subminor: i32) -> Version {
        Version {
            x: major as u32,
            y: if minor >= 0 { Some(minor as u32) } else { None },
            z: if subminor >= 0 { Some(subminor as u32) } else { None },
        }
    }

    /// The version, if any, libclang reports as the numbers `major`, `minor`, and `subminor`: a
    /// negative major number denotes no version.
    pub open spec fn reported(major: i32, minor: i32, subminor: i32) -> Option<Version> {
        if major >= 0 {
            Some(Version::numbered(major, minor, subminor))
        } else {
            None
        }
    }

    /// Returns the version libclang reports as the numbers `major`, `minor`, and `subminor`.
    pub fn from_raw(major: i32, minor: i32, subminor: i32) -> (version: Version)
        ensures
            version == Version::numbered(major, minor, subminor),
    {
        Version {
            x: major as u32,
            y: if minor >= 0 { Some(minor as u32) } else { None },
            z: if subminor >= 0 { Some(subminor as u32) } else { None },
        }
    }

    /// Returns the version, if any, libclang reports as the numbers `major`, `minor`, and
    /// `subminor`.
    pub fn from_raw_option(major: i32, minor: i32, subminor: i32) -> (version: Option<Version>)
        ensures
            version == Version::reported(major, minor, subminor),
    {
        if major >= 0 {
            Some(Version::from_raw(major, minor, subminor))
        } else {
            None
        }
    }
}

/// A version is read from libclang's numbers: a negative major number means no version; the
/// major number is the first component, and the minor and subminor numbers are the second and
/// third components exactly when they are not negative.
pub proof fn lemma_versions(major: i32, minor: i32, subminor: i32)
    ensures
        Version::reported(major, minor, subminor) is None <==> major < 0,
        major >= 0 ==> Version::reported(major, minor, subminor) == Some(
            Version::numbered(major, minor, subminor),
        ),
        major >= 0 ==> Version::numbered(major, minor, subminor).x == major,
        minor >= 0 ==> Version::numbered(major, minor, subminor).y == Some(minor as u32),
        minor < 0 ==> Version::numbered(major, minor, subminor).y is None,
        subminor >= 0 ==> Version::numbered(major, minor, subminor).z == Some(subminor as u32),
        subminor < 0 ==> Version::numbered(major, minor, subminor).z is None,
{
}

//================================================
// Functions
//================================================

/// Returns the availability of an entity, given the value libclang reports for it.
pub fn get_availability(raw: i32) -> (availability: Availability)
    requires
        Availability::is_code(raw as int),
    ensures
        availability.code() == raw,
{
    Availability::from_raw(raw).unwrap()
}

/// Returns the width of a bit field, given the value libclang reports for it (negative when the
/// entity is not a bit field).
pub fn get_bit_field_width(width: i32) -> (result: Option<usize>)
    ensures
        width >= 0 ==> result == Some(width as usize),
        width < 0 ==> result is None,
{
    if width >= 0 {
        Some(width as usize)
    } else {
        None
    }
}

/// Returns the signed and unsigned value of an enum constant, given the entity's kind and the
/// values libclang reports: only an enum constant declaration has a value.
pub fn get_enum_constant_value(kind: EntityKind, signed: i64, unsigned: u64) -> (value: Option<(i64, u64)>)
    ensures
        value == if kind == EntityKind::EnumConstantDecl {
            Some((signed, unsigned))
        } else {
            None
        },
{
    if kind == EntityKind::EnumConstantDecl {
        Some((signed, unsigned))
    } else {
        None
    }
}

/// Returns the attributes of an Objective-C property, given the bit flags libclang reports for
/// them: no flags denote no attributes.
pub fn get_objc_attributes(attributes: i32) -> (result: Option<ObjCAttributes>)
    ensures
        result == if attributes != 0 {
            Some(ObjCAttributes::from_flags(attributes))
        } else {
            None
        },
{
    if attributes != 0 {
        Some(ObjCAttributes::from(attributes))
    } else {
        None
    }
}

/// Returns the qualifiers of an Objective-C method return or parameter type, given the bit flags
/// libclang reports for them: no flags denote no qualifiers.
pub fn get_objc_qualifiers(qualifiers: i32) -> (result: Option<ObjCQualifiers>)
    ensures
        result == if qualifiers != 0 {
            Some(ObjCQualifiers::from_flags(qualifiers))
        } else {
            None
        },
{
    if qualifiers != 0 {
        Some(ObjCQualifiers::from(qualifiers))
    } else {
        None
    }
}

/// Returns the index of an Objective-C selector identifier, given the value libclang reports
/// (negative when there is none).
pub fn get_objc_selector_index(index: i32) -> (result: Option<usize>)
    ensures
        index >= 0 ==> result == Some(index as usize),
        index < 0 ==> result is None,
{
    if index >= 0 {
        Some(index as usize)
    } else {
        None
    }
}

/// Returns the offset of a field in bits, given the value libclang reports for it.
pub fn get_offset_of_field(offsetof_: i64) -> (result: Result<usize, OffsetofError>)
    ensures
        result == match OffsetofError::error_of(offsetof_ as int) {
            Some(e) => Err(e),
            None => Ok(offsetof_ as usize),
        },
{
    match OffsetofError::from_error(offsetof_) {
        Ok(()) => Ok(offsetof_ as usize),
        Err(e) => Err(e),
    }
}

/// Returns the overloaded declarations an entity refers to, or `None` when there are none.
pub fn get_overloaded_declarations<E>(declarations: Vec<E>) -> (result: Option<Vec<E>>)
    ensures
        declarations.len() > 0 ==> result == Some(declarations),
        declarations.len() == 0 ==> result is None,
{
    if declarations.len() > 0 {
        Some(declarations)
    } else {
        None
    }
}

/// Returns the kind of the specializations a template entity would generate, given the kind
/// libclang reports: the kind libclang uses when no declaration is found (and any kind the wrapper
/// does not recognise) denotes none.
pub fn get_template_kind(kind: i32) -> (result: Option<EntityKind>)
    ensures
        result is Some <==> (kind != 71 && EntityKind::is_code(kind as int)),
        result matches Some(k) ==> k.code() == kind,
{
    if kind == 71 {
        None
    } else {
        EntityKind::from_raw(kind)
    }
}

} // verus!
