//! Lexed pieces of source files.

use vstd::prelude::*;

verus! {

/// Indicates the categorization of a token.
#[derive(Copy, Clone, Debug, PartialEq, Eq, Hash, Structural)]
pub enum TokenKind {
    /// A comment token.
    Comment,
    /// An identifier token.
    Identifier,
    /// A keyword token.
    Keyword,
    /// A literal token.
    Literal,
    /// A puncuation token.
    Punctuation,
}

impl TokenKind {
    /// The value libclang uses for this token kind.
    pub open spec fn code(self) -> int {
        match self {
            TokenKind::Comment => 4,
            TokenKind::Identifier => 2,
            TokenKind::Keyword => 1,
            TokenKind::Literal => 3,
            TokenKind::Punctuation => 0,
        }
    }

    /// Returns the value libclang uses for this token kind.
    pub fn to_raw(self) -> (raw: i32)
        ensures
            raw == self.code(),
    {
        match self {
            TokenKind::Comment => 4,
            TokenKind::Identifier => 2,
            TokenKind::Keyword => 1,
            TokenKind::Literal => 3,
            TokenKind::Punctuation => 0,
        }
    }

    /// Whether `raw` is one of the values that `from_raw` recognises.
    pub open spec fn is_code(raw: int) -> bool {
        0 <= raw <= 4
    }

    /// Returns the token kind that libclang denotes by `raw`, if `raw` is a recognised value.
    pub fn from_raw(raw: i32) -> (result: Option<Self>)
        ensures
            result is Some <==> Self::is_code(raw as int),
            result matches Some(k) ==> k.code() == raw,
    {
        match raw {
            0 => Some(TokenKind::Punctuation),
            1 => Some(TokenKind::Keyword),
            2 => Some(TokenKind::Identifier),
            3 => Some(TokenKind::Literal),
            4 => Some(TokenKind::Comment),
            _ => None,
        }
    }

    spec fn decode(raw: int) -> Option<Self> {
        if raw == 4 {
            Some(TokenKind::Comment)
        } else if raw == 2 {
            Some(TokenKind::Identifier)
        } else if raw == 1 {
            Some(TokenKind::Keyword)
        } else if raw == 3 {
            Some(TokenKind::Literal)
        } else if raw == 0 {
            Some(TokenKind::Punctuation)
        } else {
            None
        }
    }

    proof fn lemma_decode(self)
        ensures
            Self::decode(self.code()) == Some(self),
    {
        match self {
            TokenKind::Comment => {},
            TokenKind::Identifier => {},
            TokenKind::Keyword => {},
            TokenKind::Literal => {},
            TokenKind::Punctuation => {},
        }
    }

    /// No two variants share a value; every variant's value is recognised by `from_raw`.
    pub proof fn lemma_code(self, other: Self)
        ensures
            self.code() == other.code() ==> self == other,
            Self::is_code(self.code()),
    {
        self.lemma_decode();
        other.lemma_decode();
    }
}


impl TokenKind {
    /// Each variant stands for libclang's value of the same name: the values libclang's C
    /// interface gives them.
    pub proof fn lemma_libclang_values()
        ensures
            TokenKind::Comment.code() == 4,
            TokenKind::Identifier.code() == 2,
            TokenKind::Keyword.code() == 1,
            TokenKind::Literal.code() == 3,
            TokenKind::Punctuation.code() == 0,
    {
    }
}

} // verus!
