//! What the wrapper makes of the raw values libclang reports about types.

use vstd::prelude::*;

use crate::error::{AlignofError, OffsetofError, SizeofError};
use crate::kind::TypeKind;

verus! {

/// The raw kind of an elaborated type (e.g., `struct S` rather than `S`).
pub const ELABORATED: i32 = 119;

/// Whether libclang reports a type of the raw kind `kind` at all (the invalid kind denotes the
/// absence of a type).
pub open spec fn is_type_kind(kind: int) -> bool {
    kind != 0
}

/// Returns whether libclang reports a type of the raw kind `kind` at all.
pub fn is_valid_kind(kind: i32) -> (result: bool)
    ensures
        result == is_type_kind(kind as int),
{
    kind != 0
}

/// Whether a type of the raw kind `kind` is elaborated: `libclang` reports elaborated types
/// under a kind of their own.
pub open spec fn elaborated_kind(kind: int) -> Option<bool> {
    Some(kind == ELABORATED)
}

/// Returns whether a type of the raw kind `kind` is elaborated.
pub fn is_elaborated(kind: i32) -> (result: Option<bool>)
    ensures
        result == elaborated_kind(kind as int),
{
    Some(kind == ELABORATED)
}

/// Whether the raw kind `kind` is that of an integer type (`bool` through `__int128`).
pub open spec fn integer_kind(kind: int) -> bool {
    3 <= kind <= 20
}

/// Whether the raw kind `kind` is that of a signed integer type (`char` through `__int128`).
pub open spec fn signed_integer_kind(kind: int) -> bool {
    13 <= kind <= 20
}

/// Whether the raw kind `kind` is that of an unsigned integer type (`bool` through
/// `unsigned __int128`).
pub open spec fn unsigned_integer_kind(kind: int) -> bool {
    3 <= kind <= 12
}

/// Returns whether a type of the raw kind `kind` is an integer type (`bool` through `__int128`).
pub fn is_integer(kind: i32) -> (result: bool)
    ensures
        result == (3 <= kind <= 20),
        result == integer_kind(kind as int),
{
    kind >= 3 && kind <= 20
}

/// Returns whether a type of the raw kind `kind` is a signed integer type (`char` through
/// `__int128`).
pub fn is_signed_integer(kind: i32) -> (result: bool)
    ensures
        result == (13 <= kind <= 20),
        result == signed_integer_kind(kind as int),
{
    kind >= 13 && kind <= 20
}

/// Returns whether a type of the raw kind `kind` is an unsigned integer type (`bool` through
/// `unsigned __int128`).
pub fn is_unsigned_integer(kind: i32) -> (result: bool)
    ensures
        result == (3 <= kind <= 12),
        result == unsigned_integer_kind(kind as int),
{
    kind >= 3 && kind <= 12
}

/// Returns the alignment of a type in bytes, given the value libclang reports for it.
pub fn get_alignof(alignof_: i64) -> (result: Result<usize, AlignofError>)
    ensures
        result is Ok <==> alignof_ >= 0,
        result == match AlignofError::error_of(alignof_ as int) {
            Some(e) => Err(e),
            None => Ok(alignof_ as usize),
        },
{
    match AlignofError::from_error(alignof_) {
        Ok(()) => Ok(alignof_ as usize),
        Err(e) => Err(e),
    }
}

/// Returns the offset of a field in a record type in bits, given the value libclang reports for
/// it.
pub fn get_offsetof(offsetof_: i64) -> (result: Result<usize, OffsetofError>)
    ensures
        result is Ok <==> offsetof_ >= 0,
        result == match OffsetofError::error_of(offsetof_ as int) {
            Some(e) => Err(e),
            None => Ok(offsetof_ as usize),
        },
{
    match OffsetofError::from_error(offsetof_) {
        Ok(()) => Ok(offsetof_ as usize),
        Err(e) => Err(e),
    }
}

/// Returns the size of a type in bytes, given the value libclang reports for it.
pub fn get_sizeof(sizeof_: i64) -> (result: Result<usize, SizeofError>)
    ensures
        result is Ok <==> sizeof_ >= 0,
        result == match SizeofError::error_of(sizeof_ as int) {
            Some(e) => Err(e),
            None => Ok(sizeof_ as usize),
        },
{
    match SizeofError::from_error(sizeof_) {
        Ok(()) => Ok(sizeof_ as usize),
        Err(e) => Err(e),
    }
}

/// Returns the number of elements of an array or vector type, given the value libclang reports
/// for it (negative when the type has no such number).
pub fn get_size(size: i64) -> (result: Option<usize>)
    ensures
        size >= 0 ==> result == Some(size as usize),
        size < 0 ==> result is None,
{
    if size >= 0 {
        Some(size as usize)
    } else {
        None
    }
}


/// The integer types are the types of the kinds `bool` to `__int128`: the signed ones (`char`
/// when signed, `signed char`, `wchar_t`, `short`, `int`, `long`, `long long`, `__int128`) and
/// the unsigned ones (`bool`, `char` when unsigned, `unsigned char`, `char16_t`, `char32_t`, and
/// the unsigned `short` to `__int128`); and the elaborated type kind is the one elaborated.
pub proof fn lemma_integer_kinds(k: TypeKind)
    ensures
        signed_integer_kind(k.code()) <==> (k is CharS || k is SChar || k is WChar || k is Short
            || k is Int || k is Long || k is LongLong || k is Int128),
        unsigned_integer_kind(k.code()) <==> (k is Bool || k is CharU || k is UChar || k is Char16
            || k is Char32 || k is UShort || k is UInt || k is ULong || k is ULongLong
            || k is UInt128),
        integer_kind(k.code()) <==> (signed_integer_kind(k.code()) || unsigned_integer_kind(
            k.code(),
        )),
        elaborated_kind(k.code()) == Some(k is Elaborated),
{
    k.lemma_code(TypeKind::Elaborated);
}

} // verus!
