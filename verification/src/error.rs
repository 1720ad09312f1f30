//! Errors reported by libclang.

use vstd::prelude::*;

use crate::ffi::{CXErrorCode, CXSaveError, CXTypeLayoutError};

verus! {

/// Indicates the error that prevented determining the alignment of a type.
#[derive(Copy, Clone, Debug, PartialEq, Eq, Hash, Structural)]
pub enum AlignofError {
    /// The type is a dependent type.
    Dependent,
    /// The type is an incomplete type.
    Incomplete,
    /// The type is invalid.
    Invalid,
    /// The type is undeduced.
    Undeduced,
}

impl AlignofError {
    /// The error that the code returned by a layout query denotes, if any.
    pub open spec fn error_of(code: int) -> Option<Self> {
        if code == -3 {
            Some(AlignofError::Dependent)
        } else if code == -2 {
            Some(AlignofError::Incomplete)
        } else if code == -6 {
            Some(AlignofError::Undeduced)
        } else if code < 0 {
            Some(AlignofError::Invalid)
        } else {
            None
        }
    }

    /// The message that describes this error.
    pub open spec fn message(self) -> Seq<char> {
        match self {
            AlignofError::Dependent => "the type is a dependent type"@,
            AlignofError::Incomplete => "the type is an incomplete type"@,
            AlignofError::Invalid => "the type is invalid"@,
            AlignofError::Undeduced => "the type is undeduced"@,
        }
    }

    /// Returns the error that the code returned by a layout query denotes, or `Ok(())` if it denotes
    /// none.
    pub fn from_error(error: i64) -> (result: Result<(), Self>)
        ensures
            result == match Self::error_of(error as int) {
                Some(e) => Err(e),
                None => Ok(()),
            },
    {
        match error {
            -3 => Err(AlignofError::Dependent),
            -2 => Err(AlignofError::Incomplete),
            -6 => Err(AlignofError::Undeduced),
            _ => if error < 0 {
                Err(AlignofError::Invalid)
            } else {
                Ok(())
            },
        }
    }

    /// Returns the message that describes this error.
    pub fn to_string(&self) -> (message: String)
        ensures
            message@ == self.message(),
    {
        match self {
            AlignofError::Dependent => "the type is a dependent type".to_owned(),
            AlignofError::Incomplete => "the type is an incomplete type".to_owned(),
            AlignofError::Invalid => "the type is invalid".to_owned(),
            AlignofError::Undeduced => "the type is undeduced".to_owned(),
        }
    }
}

impl From<AlignofError> for String {
    fn from(error: AlignofError) -> (message: String)
        ensures
            message@ == error.message(),
    {
        error.to_string()
    }
}

impl vstd::std_specs::convert::FromSpecImpl<AlignofError> for String {
    open spec fn obeys_from_spec() -> bool {
        false
    }

    open spec fn from_spec(error: AlignofError) -> String {
        arbitrary()
    }
}

/// Indicates the error that prevented determining the offset of a field in a record type.
#[derive(Copy, Clone, Debug, PartialEq, Eq, Hash, Structural)]
pub enum OffsetofError {
    /// The record type is a dependent type.
    Dependent,
    /// The record type is an incomplete type.
    Incomplete,
    /// The record type does not contain a field with the supplied name.
    Name,
    /// The record type has an invalid parent declaration.
    Parent,
    /// The type is undeduced.
    Undeduced,
}

impl OffsetofError {
    /// The error that the code returned by a layout query denotes, if any.
    pub open spec fn error_of(code: int) -> Option<Self> {
        if code == -3 {
            Some(OffsetofError::Dependent)
        } else if code == -2 {
            Some(OffsetofError::Incomplete)
        } else if code == -5 {
            Some(OffsetofError::Name)
        } else if code == -6 {
            Some(OffsetofError::Undeduced)
        } else if code < 0 {
            Some(OffsetofError::Parent)
        } else {
            None
        }
    }

    /// The message that describes this error.
    pub open spec fn message(self) -> Seq<char> {
        match self {
            OffsetofError::Dependent => "the record type is a dependent type"@,
            OffsetofError::Incomplete => "the record type is an incomplete type"@,
            OffsetofError::Name => "the record type does not contain a field with the supplied name"@,
            OffsetofError::Parent => "the record type has an invalid parent declaration"@,
            OffsetofError::Undeduced => "the type is undeduced"@,
        }
    }

    /// Returns the error that the code returned by a layout query denotes, or `Ok(())` if it denotes
    /// none.
    pub fn from_error(error: i64) -> (result: Result<(), Self>)
        ensures
            result == match Self::error_of(error as int) {
                Some(e) => Err(e),
                None => Ok(()),
            },
    {
        match error {
            -3 => Err(OffsetofError::Dependent),
            -2 => Err(OffsetofError::Incomplete),
            -5 => Err(OffsetofError::Name),
            -6 => Err(OffsetofError::Undeduced),
            _ => if error < 0 {
                Err(OffsetofError::Parent)
            } else {
                Ok(())
            },
        }
    }

    /// Returns the message that describes this error.
    pub fn to_string(&self) -> (message: String)
        ensures
            message@ == self.message(),
    {
        match self {
            OffsetofError::Dependent => "the record type is a dependent type".to_owned(),
            OffsetofError::Incomplete => "the record type is an incomplete type".to_owned(),
            OffsetofError::Name => "the record type does not contain a field with the supplied name".to_owned(),
            OffsetofError::Parent => "the record type has an invalid parent declaration".to_owned(),
            OffsetofError::Undeduced => "the type is undeduced".to_owned(),
        }
    }
}

impl From<OffsetofError> for String {
    fn from(error: OffsetofError) -> (message: String)
        ensures
            message@ == error.message(),
    {
        error.to_string()
    }
}

impl vstd::std_specs::convert::FromSpecImpl<OffsetofError> for String {
    open spec fn obeys_from_spec() -> bool {
        false
    }

    open spec fn from_spec(error: OffsetofError) -> String {
        arbitrary()
    }
}

/// Indicates the type of error that prevented the saving of a translation unit to an AST file.
#[derive(Copy, Clone, Debug, PartialEq, Eq, Hash, Structural)]
pub enum SaveError {
    /// Errors in the translation unit prevented saving.
    Errors,
    /// An unknown error occurred.
    Unknown,
}

impl SaveError {
    /// The error that the code returned by a libclang call denotes, if any: every code but 0 (success)
    /// denotes one, the codes of a translation unit that has errors or is invalid (2 and 3) denoting
    /// `Errors`.
    pub open spec fn error_of(code: int) -> Option<Self> {
        if code == 0 {
            None
        } else if code == 2 || code == 3 {
            Some(SaveError::Errors)
        } else {
            Some(SaveError::Unknown)
        }
    }

    /// The message that describes this error.
    pub open spec fn message(self) -> Seq<char> {
        match self {
            SaveError::Errors => "errors in the translation unit prevented saving"@,
            SaveError::Unknown => "an unknown error occurred"@,
        }
    }

    /// Returns the error that the code returned by a libclang call denotes, or `Ok(())` if it denotes
    /// none.
    pub fn from_error(error: i32) -> (result: Result<(), Self>)
        ensures
            result == match Self::error_of(error as int) {
                Some(e) => Err(e),
                None => Ok(()),
            },
    {
        match error {
            0 => Ok(()),
            2 | 3 => Err(SaveError::Errors),
            _ => Err(SaveError::Unknown),
        }
    }

    /// Returns the message that describes this error.
    pub fn to_string(&self) -> (message: String)
        ensures
            message@ == self.message(),
    {
        match self {
            SaveError::Errors => "errors in the translation unit prevented saving".to_owned(),
            SaveError::Unknown => "an unknown error occurred".to_owned(),
        }
    }
}

impl From<SaveError> for String {
    fn from(error: SaveError) -> (message: String)
        ensures
            message@ == error.message(),
    {
        error.to_string()
    }
}

impl vstd::std_specs::convert::FromSpecImpl<SaveError> for String {
    open spec fn obeys_from_spec() -> bool {
        false
    }

    open spec fn from_spec(error: SaveError) -> String {
        arbitrary()
    }
}

/// Indicates the error that prevented determining the size of a type.
#[derive(Copy, Clone, Debug, PartialEq, Eq, Hash, Structural)]
pub enum SizeofError {
    /// The type is a dependent type.
    Dependent,
    /// The type is an incomplete type.
    Incomplete,
    /// The type is a variable size type.
    VariableSize,
    /// The supplied field name was invalid.
    InvalidFieldName,
    /// The type is invalid.
    Invalid,
    /// The type is undeduced.
    Undeduced,
}

impl SizeofError {
    /// The error that the code returned by a layout query denotes, if any.
    pub open spec fn error_of(code: int) -> Option<Self> {
        if code == -3 {
            Some(SizeofError::Dependent)
        } else if code == -2 {
            Some(SizeofError::Incomplete)
        } else if code == -4 {
            Some(SizeofError::VariableSize)
        } else if code == -5 {
            Some(SizeofError::InvalidFieldName)
        } else if code == -6 {
            Some(SizeofError::Undeduced)
        } else if code < 0 {
            Some(SizeofError::Invalid)
        } else {
            None
        }
    }

    /// The message that describes this error.
    pub open spec fn message(self) -> Seq<char> {
        match self {
            SizeofError::Dependent => "the type is a dependent type"@,
            SizeofError::Incomplete => "the type is an incomplete type"@,
            SizeofError::VariableSize => "the type is a variable size type"@,
            SizeofError::InvalidFieldName => "invalid field name"@,
            SizeofError::Invalid => "the type is invalid"@,
            SizeofError::Undeduced => "the type is undeduced"@,
        }
    }

    /// Returns the error that the code returned by a layout query denotes, or `Ok(())` if it denotes
    /// none.
    pub fn from_error(error: i64) -> (result: Result<(), Self>)
        ensures
            result == match Self::error_of(error as int) {
                Some(e) => Err(e),
                None => Ok(()),
            },
    {
        match error {
            -3 => Err(SizeofError::Dependent),
            -2 => Err(SizeofError::Incomplete),
            -4 => Err(SizeofError::VariableSize),
            -5 => Err(SizeofError::InvalidFieldName),
            -6 => Err(SizeofError::Undeduced),
            _ => if error < 0 {
                Err(SizeofError::Invalid)
            } else {
                Ok(())
            },
        }
    }

    /// Returns the message that describes this error.
    pub fn to_string(&self) -> (message: String)
        ensures
            message@ == self.message(),
    {
        match self {
            SizeofError::Dependent => "the type is a dependent type".to_owned(),
            SizeofError::Incomplete => "the type is an incomplete type".to_owned(),
            SizeofError::VariableSize => "the type is a variable size type".to_owned(),
            SizeofError::InvalidFieldName => "invalid field name".to_owned(),
            SizeofError::Invalid => "the type is invalid".to_owned(),
            SizeofError::Undeduced => "the type is undeduced".to_owned(),
        }
    }
}

impl From<SizeofError> for String {
    fn from(error: SizeofError) -> (message: String)
        ensures
            message@ == error.message(),
    {
        error.to_string()
    }
}

impl vstd::std_specs::convert::FromSpecImpl<SizeofError> for String {
    open spec fn obeys_from_spec() -> bool {
        false
    }

    open spec fn from_spec(error: SizeofError) -> String {
        arbitrary()
    }
}

/// Indicates the type of error that prevented the loading of a translation unit from a source
/// file.
#[derive(Copy, Clone, Debug, PartialEq, Eq, Hash, Structural)]
pub enum SourceError {
    /// An error occurred while deserializing an AST file.
    AstDeserialization,
    /// `libclang` crashed.
    Crash,
    /// An unknown error occurred.
    Unknown,
}

impl SourceError {
    /// The error that the code returned by a libclang call denotes, if any: every code but 0 (success)
    /// denotes one, and a code other than those of a crash (2) and of a failed AST read (4) denotes
    /// `Unknown`.
    pub open spec fn error_of(code: int) -> Option<Self> {
        if code == 0 {
            None
        } else if code == 4 {
            Some(SourceError::AstDeserialization)
        } else if code == 2 {
            Some(SourceError::Crash)
        } else {
            Some(SourceError::Unknown)
        }
    }

    /// The message that describes this error.
    pub open spec fn message(self) -> Seq<char> {
        match self {
            SourceError::AstDeserialization => "AST deserialization failed"@,
            SourceError::Crash => "`libclang` crashed"@,
            SourceError::Unknown => "an unknown error occurred"@,
        }
    }

    /// Returns the error that the code returned by a libclang call denotes, or `Ok(())` if it denotes
    /// none.
    pub fn from_error(error: i32) -> (result: Result<(), Self>)
        ensures
            result == match Self::error_of(error as int) {
                Some(e) => Err(e),
                None => Ok(()),
            },
    {
        match error {
            0 => Ok(()),
            4 => Err(SourceError::AstDeserialization),
            2 => Err(SourceError::Crash),
            _ => Err(SourceError::Unknown),
        }
    }

    /// Returns the message that describes this error.
    pub fn to_string(&self) -> (message: String)
        ensures
            message@ == self.message(),
    {
        match self {
            SourceError::AstDeserialization => "AST deserialization failed".to_owned(),
            SourceError::Crash => "`libclang` crashed".to_owned(),
            SourceError::Unknown => "an unknown error occurred".to_owned(),
        }
    }
}

impl From<SourceError> for String {
    fn from(error: SourceError) -> (message: String)
        ensures
            message@ == error.message(),
    {
        error.to_string()
    }
}

impl vstd::std_specs::convert::FromSpecImpl<SourceError> for String {
    open spec fn obeys_from_spec() -> bool {
        false
    }

    open spec fn from_spec(error: SourceError) -> String {
        arbitrary()
    }
}


//================================================
// Laws
//================================================

/// The codes of libclang's layout queries denote the errors of the same meaning, whatever the
/// query; a value that is not negative (a size, an alignment, or an offset) denotes none.
pub proof fn lemma_layout_errors(value: int)
    ensures
        AlignofError::error_of(CXTypeLayoutError::Invalid.code()) == Some(AlignofError::Invalid),
        AlignofError::error_of(CXTypeLayoutError::Incomplete.code()) == Some(AlignofError::Incomplete),
        AlignofError::error_of(CXTypeLayoutError::Dependent.code()) == Some(AlignofError::Dependent),
        AlignofError::error_of(-6) == Some(AlignofError::Undeduced),
        SizeofError::error_of(CXTypeLayoutError::Invalid.code()) == Some(SizeofError::Invalid),
        SizeofError::error_of(CXTypeLayoutError::Incomplete.code()) == Some(SizeofError::Incomplete),
        SizeofError::error_of(CXTypeLayoutError::Dependent.code()) == Some(SizeofError::Dependent),
        SizeofError::error_of(CXTypeLayoutError::NotConstantSize.code()) == Some(
            SizeofError::VariableSize,
        ),
        SizeofError::error_of(CXTypeLayoutError::InvalidFieldName.code()) == Some(
            SizeofError::InvalidFieldName,
        ),
        SizeofError::error_of(-6) == Some(SizeofError::Undeduced),
        OffsetofError::error_of(CXTypeLayoutError::Invalid.code()) == Some(OffsetofError::Parent),
        OffsetofError::error_of(CXTypeLayoutError::Incomplete.code()) == Some(
            OffsetofError::Incomplete,
        ),
        OffsetofError::error_of(CXTypeLayoutError::Dependent.code()) == Some(
            OffsetofError::Dependent,
        ),
        OffsetofError::error_of(CXTypeLayoutError::InvalidFieldName.code()) == Some(
            OffsetofError::Name,
        ),
        OffsetofError::error_of(-6) == Some(OffsetofError::Undeduced),
        value >= 0 ==> AlignofError::error_of(value) is None,
        value >= 0 ==> SizeofError::error_of(value) is None,
        value >= 0 ==> OffsetofError::error_of(value) is None,
        value < 0 ==> AlignofError::error_of(value) is Some,
        value < 0 ==> SizeofError::error_of(value) is Some,
        value < 0 ==> OffsetofError::error_of(value) is Some,
{
}

/// The error codes of libclang's parsing and saving denote the errors of the same meaning, and
/// only success denotes none.
pub proof fn lemma_call_errors(code: int)
    ensures
        SourceError::error_of(CXErrorCode::Success.code()) is None,
        SourceError::error_of(CXErrorCode::Failure.code()) == Some(SourceError::Unknown),
        SourceError::error_of(CXErrorCode::Crashed.code()) == Some(SourceError::Crash),
        SourceError::error_of(CXErrorCode::InvalidArguments.code()) == Some(SourceError::Unknown),
        SourceError::error_of(CXErrorCode::ASTReadError.code()) == Some(
            SourceError::AstDeserialization,
        ),
        SaveError::error_of(CXSaveError::NoError.code()) is None,
        SaveError::error_of(CXSaveError::Unknown.code()) == Some(SaveError::Unknown),
        SaveError::error_of(CXSaveError::TranslationErrors.code()) == Some(SaveError::Errors),
        SaveError::error_of(CXSaveError::InvalidTU.code()) == Some(SaveError::Errors),
        code != 0 ==> SourceError::error_of(code) is Some,
        code != 0 ==> SaveError::error_of(code) is Some,
{
}

/// Each error is described by its message.
pub proof fn lemma_messages()
    ensures
        AlignofError::Dependent.message() == "the type is a dependent type"@,
        AlignofError::Incomplete.message() == "the type is an incomplete type"@,
        AlignofError::Invalid.message() == "the type is invalid"@,
        AlignofError::Undeduced.message() == "the type is undeduced"@,
        OffsetofError::Dependent.message() == "the record type is a dependent type"@,
        OffsetofError::Incomplete.message() == "the record type is an incomplete type"@,
        OffsetofError::Name.message() == "the record type does not contain a field with the supplied name"@,
        OffsetofError::Parent.message() == "the record type has an invalid parent declaration"@,
        OffsetofError::Undeduced.message() == "the type is undeduced"@,
        SaveError::Errors.message() == "errors in the translation unit prevented saving"@,
        SaveError::Unknown.message() == "an unknown error occurred"@,
        SizeofError::Dependent.message() == "the type is a dependent type"@,
        SizeofError::Incomplete.message() == "the type is an incomplete type"@,
        SizeofError::VariableSize.message() == "the type is a variable size type"@,
        SizeofError::InvalidFieldName.message() == "invalid field name"@,
        SizeofError::Invalid.message() == "the type is invalid"@,
        SizeofError::Undeduced.message() == "the type is undeduced"@,
        SourceError::AstDeserialization.message() == "AST deserialization failed"@,
        SourceError::Crash.message() == "`libclang` crashed"@,
        SourceError::Unknown.message() == "an unknown error occurred"@,
{
}

} // verus!
