//! A somewhat idiomatic wrapper for libclang: the kinds, options and decisions of the wrapper,
//! stated and proved over plain values.

mod error;
#[allow(non_camel_case_types)]
pub mod ffi;
mod kind;
mod options;
pub mod completion;
pub mod documentation;
pub mod entity;
pub mod literal;
pub mod sonar;
pub mod token;
pub mod translation;
pub mod types;
pub mod utility;

pub use self::error::{AlignofError, OffsetofError, SaveError, SizeofError, SourceError};
pub use self::kind::{
    Accessibility, Availability, CallingConvention, EntityKind, EntityVisitResult,
    ExceptionSpecification, Language, Linkage, MemoryUsage, Nullability, PrintingPolicyFlag,
    RefQualifier, StorageClass, TlsKind, TypeKind, Visibility,
};
pub use self::options::{ObjCAttributes, ObjCQualifiers, ThreadOptions};
pub use self::translation::{Parser, Unsaved};
pub use self::entity::{ExternalSymbol, PlatformAvailability, Target, TemplateArgument, Usr, Version};
