//! Code completion.

use vstd::prelude::*;

use crate::ffi::CXCompletionChunkKind;
use crate::kind::EntityKind;
use crate::translation::Unsaved;
use crate::utility::{char_less, char_lt, has_prefix, lemma_char_trichotomy, chars_of, set_flag, with_flag};

use std::cmp::Ordering;

verus! {

//================================================
// Enums
//================================================

// CompletionChunk _______________________________

/// A piece of a code completion string.
///
/// An optional piece holds the completion string (of type `S`) that describes it.
#[derive(Clone, Debug, PartialEq, Eq)]
pub enum CompletionChunk<S> {
    /// A colon (`':'`).
    Colon,
    /// A comma (`','`).
    Comma,
    /// An equals sign (`'='`).
    Equals,
    /// A semicolon (`';'`).
    Semicolon,
    /// A left angle bracket (`'<'`).
    LeftAngleBracket,
    /// A right angle bracket (`'>'`).
    RightAngleBracket,
    /// A left brace (`'{'`).
    LeftBrace,
    /// A right brace (`'}'`).
    RightBrace,
    /// A left parentesis (`'('`)).
    LeftParenthesis,
    /// A right parenthesis (`')'`).
    RightParenthesis,
    /// A left square bracket (`'['`).
    LeftSquareBracket,
    /// A right square bracket (`']'`).
    RightSquareBracket,
    /// Horizontal space (e.g., `' '`).
    HorizontalSpace(String),
    /// Vertical space (e.g., `'\n'`).
    VerticalSpace(String),
    /// Text that describes the current parameter when code completion was run on a function call,
    /// message send, or template specialization.
    CurrentParameter(String),
    /// Informative text that should be displayed but not inserted as part of the template.
    Informative(String),
    /// Text that should be replaced by the user.
    Placeholder(String),
    /// Text that specifies the result type of the containing result.
    ResultType(String),
    /// Text that should be inserted.
    Text(String),
    /// Text that the user would be expected to type to get the containing code completion result.
    TypedText(String),
    /// An optional piece that could be part of the template but is not required.
    Optional(S),
}

impl<S> CompletionChunk<S> {
    /// The text associated with this completion chunk, if this chunk is not optional.
    pub open spec fn text(self) -> Option<Seq<char>> {
        match self {
            CompletionChunk::Colon => Some(":"@),
            CompletionChunk::Comma => Some(","@),
            CompletionChunk::Equals => Some("="@),
            CompletionChunk::Semicolon => Some(";"@),
            CompletionChunk::LeftAngleBracket => Some("<"@),
            CompletionChunk::RightAngleBracket => Some(">"@),
            CompletionChunk::LeftBrace => Some("{"@),
            CompletionChunk::RightBrace => Some("}"@),
            CompletionChunk::LeftParenthesis => Some("("@),
            CompletionChunk::RightParenthesis => Some(")"@),
            CompletionChunk::LeftSquareBracket => Some("["@),
            CompletionChunk::RightSquareBracket => Some("]"@),
            CompletionChunk::HorizontalSpace(text) => Some(text@),
            CompletionChunk::VerticalSpace(text) => Some(text@),
            CompletionChunk::CurrentParameter(text) => Some(text@),
            CompletionChunk::Informative(text) => Some(text@),
            CompletionChunk::Placeholder(text) => Some(text@),
            CompletionChunk::ResultType(text) => Some(text@),
            CompletionChunk::Text(text) => Some(text@),
            CompletionChunk::TypedText(text) => Some(text@),
            CompletionChunk::Optional(_) => None,
        }
    }

    /// The completion chunk libclang describes by the chunk kind `kind`, the chunk's text `text`,
    /// and, for an optional chunk, the completion string `optional`.
    pub open spec fn described(kind: int, text: String, optional: Option<S>) -> Self {
        if kind == 16 {
            CompletionChunk::Colon
        } else if kind == 14 {
            CompletionChunk::Comma
        } else if kind == 18 {
            CompletionChunk::Equals
        } else if kind == 17 {
            CompletionChunk::Semicolon
        } else if kind == 12 {
            CompletionChunk::LeftAngleBracket
        } else if kind == 13 {
            CompletionChunk::RightAngleBracket
        } else if kind == 10 {
            CompletionChunk::LeftBrace
        } else if kind == 11 {
            CompletionChunk::RightBrace
        } else if kind == 6 {
            CompletionChunk::LeftParenthesis
        } else if kind == 7 {
            CompletionChunk::RightParenthesis
        } else if kind == 8 {
            CompletionChunk::LeftSquareBracket
        } else if kind == 9 {
            CompletionChunk::RightSquareBracket
        } else if kind == 19 {
            CompletionChunk::HorizontalSpace(text)
        } else if kind == 20 {
            CompletionChunk::VerticalSpace(text)
        } else if kind == 5 {
            CompletionChunk::CurrentParameter(text)
        } else if kind == 1 {
            CompletionChunk::TypedText(text)
        } else if kind == 2 {
            CompletionChunk::Text(text)
        } else if kind == 3 {
            CompletionChunk::Placeholder(text)
        } else if kind == 4 {
            CompletionChunk::Informative(text)
        } else if kind == 15 {
            CompletionChunk::ResultType(text)
        } else {
            CompletionChunk::Optional(optional.unwrap())
        }
    }

    //- Constructors -----------------------------

    /// Returns the completion chunk libclang describes by the chunk kind `kind`, the chunk's text
    /// `text` (which only a chunk of text keeps), and, for an optional chunk, the completion
    /// string `optional`.
    pub fn from_raw(kind: i32, text: String, optional: Option<S>) -> (chunk: Self)
        requires
            CXCompletionChunkKind::is_code(kind as int),
            kind == 0 ==> optional is Some,
        ensures
            chunk == Self::described(kind as int, text, optional),
    {
        match CXCompletionChunkKind::from_raw(kind).unwrap() {
            CXCompletionChunkKind::Colon => CompletionChunk::Colon,
            CXCompletionChunkKind::Comma => CompletionChunk::Comma,
            CXCompletionChunkKind::Equal => CompletionChunk::Equals,
            CXCompletionChunkKind::SemiColon => CompletionChunk::Semicolon,
            CXCompletionChunkKind::LeftAngle => CompletionChunk::LeftAngleBracket,
            CXCompletionChunkKind::RightAngle => CompletionChunk::RightAngleBracket,
            CXCompletionChunkKind::LeftBrace => CompletionChunk::LeftBrace,
            CXCompletionChunkKind::RightBrace => CompletionChunk::RightBrace,
            CXCompletionChunkKind::LeftParen => CompletionChunk::LeftParenthesis,
            CXCompletionChunkKind::RightParen => CompletionChunk::RightParenthesis,
            CXCompletionChunkKind::LeftBracket => CompletionChunk::LeftSquareBracket,
            CXCompletionChunkKind::RightBracket => CompletionChunk::RightSquareBracket,
            CXCompletionChunkKind::HorizontalSpace => CompletionChunk::HorizontalSpace(text),
            CXCompletionChunkKind::VerticalSpace => CompletionChunk::VerticalSpace(text),
            CXCompletionChunkKind::CurrentParameter => CompletionChunk::CurrentParameter(text),
            CXCompletionChunkKind::TypedText => CompletionChunk::TypedText(text),
            CXCompletionChunkKind::Text => CompletionChunk::Text(text),
            CXCompletionChunkKind::Placeholder => CompletionChunk::Placeholder(text),
            CXCompletionChunkKind::Informative => CompletionChunk::Informative(text),
            CXCompletionChunkKind::ResultType => CompletionChunk::ResultType(text),
            CXCompletionChunkKind::Optional => CompletionChunk::Optional(optional.unwrap()),
        }
    }

    //- Accessors --------------------------------

    /// Returns the text associated with this completion chunk if this chunk is not optional.
    pub fn get_text(&self) -> (text: Option<String>)
        ensures
            match text {
                Some(t) => self.text() == Some(t@),
                None => self.text() is None,
            },
    {
        match self {
            CompletionChunk::Colon => Some(":".to_owned()),
            CompletionChunk::Comma => Some(",".to_owned()),
            CompletionChunk::Equals => Some("=".to_owned()),
            CompletionChunk::Semicolon => Some(";".to_owned()),
            CompletionChunk::LeftAngleBracket => Some("<".to_owned()),
            CompletionChunk::RightAngleBracket => Some(">".to_owned()),
            CompletionChunk::LeftBrace => Some("{".to_owned()),
            CompletionChunk::RightBrace => Some("}".to_owned()),
            CompletionChunk::LeftParenthesis => Some("(".to_owned()),
            CompletionChunk::RightParenthesis => Some(")".to_owned()),
            CompletionChunk::LeftSquareBracket => Some("[".to_owned()),
            CompletionChunk::RightSquareBracket => Some("]".to_owned()),
            CompletionChunk::CurrentParameter(text) => Some(text.clone()),
            CompletionChunk::Informative(text) => Some(text.clone()),
            CompletionChunk::Placeholder(text) => Some(text.clone()),
            CompletionChunk::ResultType(text) => Some(text.clone()),
            CompletionChunk::TypedText(text) => Some(text.clone()),
            CompletionChunk::Text(text) => Some(text.clone()),
            CompletionChunk::HorizontalSpace(text) => Some(text.clone()),
            CompletionChunk::VerticalSpace(text) => Some(text.clone()),
            CompletionChunk::Optional(_) => None,
        }
    }

    /// Returns whether this completion chunk is optional.
    pub fn is_optional(&self) -> (optional: bool)
        ensures
            optional == self is Optional,
    {
        match self {
            CompletionChunk::Optional(_) => true,
            _ => false,
        }
    }
}

//================================================
// Laws of chunks
//================================================

/// The completion chunk that libclang's chunk kind `kind` names, with the text `text` and the
/// optional completion string `optional`.
pub open spec fn chunk_named<S>(
    kind: CXCompletionChunkKind,
    text: String,
    optional: Option<S>,
) -> CompletionChunk<S> {
    match kind {
        CXCompletionChunkKind::Optional => CompletionChunk::Optional(optional.unwrap()),
        CXCompletionChunkKind::TypedText => CompletionChunk::TypedText(text),
        CXCompletionChunkKind::Text => CompletionChunk::Text(text),
        CXCompletionChunkKind::Placeholder => CompletionChunk::Placeholder(text),
        CXCompletionChunkKind::Informative => CompletionChunk::Informative(text),
        CXCompletionChunkKind::CurrentParameter => CompletionChunk::CurrentParameter(text),
        CXCompletionChunkKind::LeftParen => CompletionChunk::LeftParenthesis,
        CXCompletionChunkKind::RightParen => CompletionChunk::RightParenthesis,
        CXCompletionChunkKind::LeftBracket => CompletionChunk::LeftSquareBracket,
        CXCompletionChunkKind::RightBracket => CompletionChunk::RightSquareBracket,
        CXCompletionChunkKind::LeftBrace => CompletionChunk::LeftBrace,
        CXCompletionChunkKind::RightBrace => CompletionChunk::RightBrace,
        CXCompletionChunkKind::LeftAngle => CompletionChunk::LeftAngleBracket,
        CXCompletionChunkKind::RightAngle => CompletionChunk::RightAngleBracket,
        CXCompletionChunkKind::Comma => CompletionChunk::Comma,
        CXCompletionChunkKind::ResultType => CompletionChunk::ResultType(text),
        CXCompletionChunkKind::Colon => CompletionChunk::Colon,
        CXCompletionChunkKind::SemiColon => CompletionChunk::Semicolon,
        CXCompletionChunkKind::Equal => CompletionChunk::Equals,
        CXCompletionChunkKind::HorizontalSpace => CompletionChunk::HorizontalSpace(text),
        CXCompletionChunkKind::VerticalSpace => CompletionChunk::VerticalSpace(text),
    }
}

/// The chunk read from a chunk kind is the chunk of libclang's kind with that value.
pub proof fn lemma_chunk_of_kind<S>(kind: CXCompletionChunkKind, text: String, optional: Option<S>)
    ensures
        CompletionChunk::<S>::described(kind.code(), text, optional) == chunk_named(
            kind,
            text,
            optional,
        ),
{
}

/// The chunk read from a chunk kind carries libclang's text for that kind: the punctuation its
/// kind names, or the text libclang reports for a kind of text; an optional chunk has none.
pub proof fn lemma_chunk_text<S>(kind: int, text: String, optional: Option<S>)
    requires
        CXCompletionChunkKind::is_code(kind),
        kind == 0 ==> optional is Some,
    ensures
        CompletionChunk::<S>::described(kind, text, optional).text() == if kind == 0 {
            None
        } else if kind == 6 {
            Some("("@)
        } else if kind == 7 {
            Some(")"@)
        } else if kind == 8 {
            Some("["@)
        } else if kind == 9 {
            Some("]"@)
        } else if kind == 10 {
            Some("{"@)
        } else if kind == 11 {
            Some("}"@)
        } else if kind == 12 {
            Some("<"@)
        } else if kind == 13 {
            Some(">"@)
        } else if kind == 14 {
            Some(","@)
        } else if kind == 16 {
            Some(":"@)
        } else if kind == 17 {
            Some(";"@)
        } else if kind == 18 {
            Some("="@)
        } else {
            Some(text@)
        },
        (CompletionChunk::<S>::described(kind, text, optional) is Optional) <==> kind == 0,
        typed_text(seq![CompletionChunk::<S>::described(kind, text, optional)]) == if kind == 1 {
            Some(text@)
        } else {
            None
        },
{
    let c = CompletionChunk::<S>::described(kind, text, optional);
    reveal_with_fuel(typed_text, 2);
    assert(seq![c].drop_first() =~= Seq::<CompletionChunk<S>>::empty());
}

//================================================
// Typed text and order
//================================================

/// The text of the first typed text chunk among `chunks`, if any.
pub open spec fn typed_text<S>(chunks: Seq<CompletionChunk<S>>) -> Option<Seq<char>>
    decreases chunks.len(),
{
    if chunks.len() == 0 {
        None
    } else {
        match chunks[0] {
            CompletionChunk::TypedText(text) => Some(text@),
            _ => typed_text(chunks.drop_first()),
        }
    }
}

/// The typed text of some chunks is the text of the first typed text chunk among them: a chunk
/// in front that is not typed text does not change it, and no chunks have none.
pub proof fn lemma_typed_text_first<S>(
    text: String,
    chunk: CompletionChunk<S>,
    rest: Seq<CompletionChunk<S>>,
)
    ensures
        typed_text(seq![CompletionChunk::<S>::TypedText(text)] + rest) == Some(text@),
        !(chunk is TypedText) ==> typed_text(seq![chunk] + rest) == typed_text(rest),
        typed_text(Seq::<CompletionChunk<S>>::empty()) is None,
{
    assert((seq![CompletionChunk::<S>::TypedText(text)] + rest)[0] == CompletionChunk::<
        S,
    >::TypedText(text));
    assert((seq![chunk] + rest).drop_first() =~= rest);
    assert((seq![chunk] + rest)[0] == chunk);
}

/// Returns the text of the first typed text chunk among `chunks`, if any.
pub fn get_typed_text<S>(chunks: &Vec<CompletionChunk<S>>) -> (text: Option<String>)
    ensures
        match text {
            Some(t) => typed_text(chunks@) == Some(t@),
            None => typed_text(chunks@) is None,
        },
{
    let mut i: usize = 0;
    assert(chunks@.skip(0) =~= chunks@);
    while i < chunks.len()
        invariant
            i <= chunks.len(),
            typed_text(chunks@) == typed_text(chunks@.skip(i as int)),
        decreases chunks.len() - i,
    {
        assert(chunks@.skip(i as int).drop_first() =~= chunks@.skip(i + 1));
        if let CompletionChunk::TypedText(text) = &chunks[i] {
            return Some(text.clone());
        }
        i = i + 1;
    }
    None
}

/// The lexicographic order of two strings of characters.
pub open spec fn lexicographic(a: Seq<char>, b: Seq<char>) -> Ordering
    decreases a.len(),
{
    if a.len() == 0 && b.len() == 0 {
        Ordering::Equal
    } else if a.len() == 0 {
        Ordering::Less
    } else if b.len() == 0 {
        Ordering::Greater
    } else if char_lt(a[0], b[0]) {
        Ordering::Less
    } else if char_lt(b[0], a[0]) {
        Ordering::Greater
    } else {
        lexicographic(a.drop_first(), b.drop_first())
    }
}

/// The order of two optional texts: no text comes first, then texts in lexicographic order.
pub open spec fn text_order(a: Option<Seq<char>>, b: Option<Seq<char>>) -> Ordering {
    match (a, b) {
        (None, None) => Ordering::Equal,
        (None, Some(_)) => Ordering::Less,
        (Some(_), None) => Ordering::Greater,
        (Some(x), Some(y)) => lexicographic(x, y),
    }
}

/// The order of two completion strings, given their priorities and the texts of their typed
/// text chunks: by priority (smaller values first), then by typed text.
pub open spec fn completion_order(
    a_priority: usize,
    a_text: Option<Seq<char>>,
    b_priority: usize,
    b_text: Option<Seq<char>>,
) -> Ordering {
    if a_priority < b_priority {
        Ordering::Less
    } else if a_priority > b_priority {
        Ordering::Greater
    } else {
        text_order(a_text, b_text)
    }
}

/// The texts of two optional strings.
pub open spec fn text_of(s: Option<String>) -> Option<Seq<char>> {
    match s {
        Some(t) => Some(t@),
        None => None,
    }
}

/// Returns the lexicographic order of the characters `a` and `b`.
fn compare_chars(a: &Vec<char>, b: &Vec<char>) -> (order: Ordering)
    ensures
        order == lexicographic(a@, b@),
{
    let mut i: usize = 0;
    let ghost mut k: int = 0;
    assert(a@.skip(k) =~= a@);
    assert(b@.skip(k) =~= b@);
    while i < a.len() && i < b.len()
        invariant
            k == i,
            i <= a.len(),
            i <= b.len(),
            lexicographic(a@, b@) == lexicographic(a@.skip(k), b@.skip(k)),
        decreases a.len() - i,
    {
        assert(a@.skip(k)[0] == a@[k]);
        assert(b@.skip(k)[0] == b@[k]);
        if char_less(a[i], b[i]) {
            return Ordering::Less;
        }
        if char_less(b[i], a[i]) {
            return Ordering::Greater;
        }
        assert(a@.skip(k).drop_first() =~= a@.skip(k + 1));
        assert(b@.skip(k).drop_first() =~= b@.skip(k + 1));
        i = i + 1;
        proof {
            k = k + 1;
        }
    }
    if i < b.len() {
        Ordering::Less
    } else if i < a.len() {
        Ordering::Greater
    } else {
        Ordering::Equal
    }
}

/// Returns the order of two completion strings, given their priorities (as libclang reports
/// them) and the texts of their typed text chunks.
pub fn order(
    a_priority: usize,
    a_text: &Option<String>,
    b_priority: usize,
    b_text: &Option<String>,
) -> (result: Ordering)
    ensures
        result == completion_order(a_priority, text_of(*a_text), b_priority, text_of(*b_text)),
{
    if a_priority < b_priority {
        Ordering::Less
    } else if a_priority > b_priority {
        Ordering::Greater
    } else {
        match (a_text, b_text) {
            (None, None) => Ordering::Equal,
            (None, Some(_)) => Ordering::Less,
            (Some(_), None) => Ordering::Greater,
            (Some(x), Some(y)) => compare_chars(&chars_of(x.as_str()), &chars_of(y.as_str())),
        }
    }
}

proof fn lemma_prefix_first(x: Seq<char>, y: Seq<char>)
    requires
        x.len() < y.len(),
        has_prefix(y, x),
    ensures
        lexicographic(x, y) == Ordering::Less,
    decreases x.len(),
{
    if x.len() > 0 {
        assert(has_prefix(y.drop_first(), x.drop_first())) by {
            assert(y.drop_first().take(x.len() - 1) =~= x.drop_first());
        }
        assert(x[0] == y[0]);
        lemma_prefix_first(x.drop_first(), y.drop_first());
    }
}

/// Completion strings come in order of priority, smaller values first; with the same priority,
/// a string without typed text comes first, then typed texts compare by their first differing
/// character in Unicode order, a text coming before the longer texts that start with it.
pub proof fn lemma_completion_order_meaning(
    a_priority: usize,
    a_text: Option<Seq<char>>,
    b_priority: usize,
    b_text: Option<Seq<char>>,
    priority: usize,
    c: char,
    d: char,
    x: Seq<char>,
    y: Seq<char>,
)
    ensures
        a_priority < b_priority ==> completion_order(a_priority, a_text, b_priority, b_text)
            == Ordering::Less,
        completion_order(priority, None, priority, Some(x)) == Ordering::Less,
        c < d ==> completion_order(
            priority,
            Some(seq![c] + x),
            priority,
            Some(seq![d] + y),
        ) == Ordering::Less,
        completion_order(priority, Some(seq![c] + x), priority, Some(seq![c] + y))
            == completion_order(priority, Some(x), priority, Some(y)),
        x.len() < y.len() && has_prefix(y, x) ==> completion_order(
            priority,
            Some(x),
            priority,
            Some(y),
        ) == Ordering::Less,
{
    assert((seq![c] + x).drop_first() =~= x);
    assert((seq![c] + y).drop_first() =~= y);
    assert((seq![d] + y).drop_first() =~= y);
    assert((seq![c] + x)[0] == c);
    assert((seq![c] + y)[0] == c);
    assert((seq![d] + y)[0] == d);
    if x.len() < y.len() && has_prefix(y, x) {
        lemma_prefix_first(x, y);
    }
}

/// The order that compares `b` with `a` when `order` compares `a` with `b`.
pub open spec fn flipped(order: Ordering) -> Ordering {
    match order {
        Ordering::Less => Ordering::Greater,
        Ordering::Equal => Ordering::Equal,
        Ordering::Greater => Ordering::Less,
    }
}

proof fn lemma_lexicographic_equal(a: Seq<char>, b: Seq<char>)
    ensures
        (lexicographic(a, b) == Ordering::Equal) <==> a == b,
    decreases a.len(),
{
    if a.len() > 0 && b.len() > 0 {
        lemma_lexicographic_equal(a.drop_first(), b.drop_first());
        if a == b {
            assert(a.drop_first() == b.drop_first());
        }
        if !char_lt(a[0], b[0]) && !char_lt(b[0], a[0]) && a.drop_first() == b.drop_first() {
            lemma_char_trichotomy(a[0], b[0]);
            assert(a =~= seq![a[0]] + a.drop_first());
            assert(b =~= seq![b[0]] + b.drop_first());
        }
    } else if a.len() == 0 && b.len() == 0 {
        assert(a =~= b);
    }
}

proof fn lemma_lexicographic_flip(a: Seq<char>, b: Seq<char>)
    ensures
        lexicographic(b, a) == flipped(lexicographic(a, b)),
    decreases a.len(),
{
    if a.len() > 0 && b.len() > 0 {
        lemma_lexicographic_flip(a.drop_first(), b.drop_first());
    }
}

proof fn lemma_lexicographic_transitive(a: Seq<char>, b: Seq<char>, c: Seq<char>)
    requires
        lexicographic(a, b) == Ordering::Less,
        lexicographic(b, c) == Ordering::Less,
    ensures
        lexicographic(a, c) == Ordering::Less,
    decreases a.len(),
{
    if a.len() > 0 && b.len() > 0 && c.len() > 0 {
        if !char_lt(a[0], b[0]) && !char_lt(b[0], c[0]) {
            lemma_lexicographic_transitive(a.drop_first(), b.drop_first(), c.drop_first());
        }
    }
}

/// Completion strings are totally ordered, as `Ord` requires: a string is equal to itself and
/// to nothing else, comparing the other way round flips the order, and the order is transitive.
pub proof fn lemma_completion_order(
    a_priority: usize,
    a_text: Option<Seq<char>>,
    b_priority: usize,
    b_text: Option<Seq<char>>,
    c_priority: usize,
    c_text: Option<Seq<char>>,
)
    ensures
        (completion_order(a_priority, a_text, b_priority, b_text) == Ordering::Equal) <==> (
        a_priority == b_priority && a_text == b_text),
        completion_order(b_priority, b_text, a_priority, a_text) == flipped(
            completion_order(a_priority, a_text, b_priority, b_text),
        ),
        completion_order(a_priority, a_text, b_priority, b_text) == Ordering::Less
            && completion_order(b_priority, b_text, c_priority, c_text) == Ordering::Less
            ==> completion_order(a_priority, a_text, c_priority, c_text) == Ordering::Less,
{
    if let (Some(x), Some(y)) = (a_text, b_text) {
        lemma_lexicographic_equal(x, y);
        lemma_lexicographic_flip(x, y);
    }
    if completion_order(a_priority, a_text, b_priority, b_text) == Ordering::Less
        && completion_order(b_priority, b_text, c_priority, c_text) == Ordering::Less {
        if let (Some(x), Some(y), Some(z)) = (a_text, b_text, c_text) {
            if a_priority == b_priority && b_priority == c_priority {
                lemma_lexicographic_transitive(x, y, z);
            }
        }
    }
}

//================================================
// Structs
//================================================

// Completer ____________________________________

/// Runs code completion.
///
/// The completer holds what libclang is asked to complete: the translation unit (of type `T`),
/// the file, line, and column to complete at, the unsaved files, and the code completion options
/// as libclang's bit flags.
pub struct Completer<T> {
    tu: T,
    file: String,
    line: u32,
    column: u32,
    unsaved: Vec<Unsaved>,
    flags: i32,
}

impl<T> Completer<T> {
    /// The translation unit code completion is run in.
    pub closed spec fn tu_of(self) -> T {
        self.tu
    }

    /// The path of the file code completion is run in.
    pub closed spec fn file_of(self) -> Seq<char> {
        self.file@
    }

    /// The line code completion is run at.
    pub closed spec fn line_of(self) -> u32 {
        self.line
    }

    /// The column code completion is run at.
    pub closed spec fn column_of(self) -> u32 {
        self.column
    }

    /// The unsaved files.
    pub closed spec fn unsaved_of(self) -> Seq<Unsaved> {
        self.unsaved@
    }

    /// The code completion options, as libclang's bit flags.
    pub closed spec fn flags_of(self) -> i32 {
        self.flags
    }

    /// Whether this completer is `other` with the code completion options `flags`.
    pub open spec fn reconfigures(self, other: Self, flags: i32) -> bool {
        &&& self.tu_of() == other.tu_of()
        &&& self.file_of() == other.file_of()
        &&& self.line_of() == other.line_of()
        &&& self.column_of() == other.column_of()
        &&& self.unsaved_of() == other.unsaved_of()
        &&& self.flags_of() == flags
    }

    //- Constructors -----------------------------

    /// Constructs a completer for the supplied location in `tu`, with no unsaved files and the
    /// code completion options `flags` (libclang's default options).
    pub fn new(tu: T, file: String, line: u32, column: u32, flags: i32) -> (completer: Completer<T>)
        ensures
            completer.tu_of() == tu,
            completer.file_of() == file@,
            completer.line_of() == line,
            completer.column_of() == column,
            completer.unsaved_of() == Seq::<Unsaved>::empty(),
            completer.flags_of() == flags,
    {
        Completer { tu, file, line, column, unsaved: Vec::new(), flags }
    }

    //- Mutators ---------------------------------

    /// Sets whether macros will be included in code completion results.
    pub fn macros(&mut self, macros: bool) -> (result: &mut Completer<T>)
        ensures
            result.reconfigures(*old(self), with_flag(old(self).flags_of(), 1, macros)),
            *final(self) == *final(result),
    {
        self.flags = set_flag(self.flags, 1, macros);
        self
    }

    /// Sets whether code patterns (e.g., for loops) will be included in code completion
    /// results.
    pub fn code_patterns(&mut self, code_patterns: bool) -> (result: &mut Completer<T>)
        ensures
            result.reconfigures(*old(self), with_flag(old(self).flags_of(), 2, code_patterns)),
            *final(self) == *final(result),
    {
        self.flags = set_flag(self.flags, 2, code_patterns);
        self
    }

    /// Sets whether documentation comment briefs will be included in code completion results.
    pub fn briefs(&mut self, briefs: bool) -> (result: &mut Completer<T>)
        ensures
            result.reconfigures(*old(self), with_flag(old(self).flags_of(), 4, briefs)),
            *final(self) == *final(result),
    {
        self.flags = set_flag(self.flags, 4, briefs);
        self
    }

    /// Sets the unsaved files to use.
    pub fn unsaved(&mut self, unsaved: Vec<Unsaved>) -> (result: &mut Completer<T>)
        ensures
            result.tu_of() == old(self).tu_of(),
            result.file_of() == old(self).file_of(),
            result.line_of() == old(self).line_of(),
            result.column_of() == old(self).column_of(),
            result.unsaved_of() == unsaved@,
            result.flags_of() == old(self).flags_of(),
            *final(self) == *final(result),
    {
        self.unsaved = unsaved;
        self
    }

    //- Accessors --------------------------------

    /// Returns the translation unit code completion is run in.
    pub fn get_tu(&self) -> (tu: &T)
        ensures
            *tu == self.tu_of(),
    {
        &self.tu
    }

    /// Returns the path of the file code completion is run in.
    pub fn get_file(&self) -> (file: &String)
        ensures
            file@ == self.file_of(),
    {
        &self.file
    }

    /// Returns the line code completion is run at.
    pub fn get_line(&self) -> (line: u32)
        ensures
            line == self.line_of(),
    {
        self.line
    }

    /// Returns the column code completion is run at.
    pub fn get_column(&self) -> (column: u32)
        ensures
            column == self.column_of(),
    {
        self.column
    }

    /// Returns the unsaved files.
    pub fn get_unsaved(&self) -> (unsaved: &Vec<Unsaved>)
        ensures
            unsaved@ == self.unsaved_of(),
    {
        &self.unsaved
    }

    /// Returns the code completion options, as libclang's bit flags.
    pub fn get_flags(&self) -> (flags: i32)
        ensures
            flags == self.flags_of(),
    {
        self.flags
    }
}

// CompletionContext _____________________________

/// Whether the bit `bit` is set in the bit flags `flags`.
#[verifier::opaque]
pub open spec fn has_bit(flags: i32, bit: i32) -> bool {
    flags & bit != 0
}

/// Indicates which types of results were included in a set of code completion results.
#[derive(Copy, Clone, Debug, PartialEq, Eq, Hash, Structural)]
pub struct CompletionContext {
    /// Indicates whether all possible types were included.
    pub all_types: bool,
    /// Indicates whether all possible values were included.
    pub all_values: bool,
    /// Indicates whether values that resolve to C++ class types were included.
    pub class_type_values: bool,
    /// Indicates whether the members of a record that are accessed with the dot operator were
    /// included.
    pub dot_members: bool,
    /// Indicates whether the members of a record that are accessed with the arrow operator were
    /// included.
    pub arrow_members: bool,
    /// Indicates whether enum tags were included.
    pub enum_tags: bool,
    /// Indicates whether union tags were included.
    pub union_tags: bool,
    /// Indicates whether struct tags were included.
    pub struct_tags: bool,
    /// Indicates whether C++ class names were included.
    pub class_names: bool,
    /// Indicates whether C++ namespaces and namespace aliases were included.
    pub namespaces: bool,
    /// Indicates whether C++ nested name specifiers were included.
    pub nested_name_specifiers: bool,
    /// Indicates whether macro names were included.
    pub macro_names: bool,
    /// Indicates whether natural language results were included.
    pub natural_language: bool,
    /// Indicates whether values that resolve to Objective-C objects were included.
    pub objc_object_values: bool,
    /// Indicates whether values that resolve to Objective-C selectors were included.
    pub objc_selector_values: bool,
    /// Indicates whether the properties of an Objective-C object that are accessed with the dot
    /// operator were included.
    pub objc_property_members: bool,
    /// Indicates whether Objective-C interfaces were included.
    pub objc_interfaces: bool,
    /// Indicates whether Objective-C protocols were included.
    pub objc_protocols: bool,
    /// Indicates whether Objective-C categories were included.
    pub objc_categories: bool,
    /// Indicates whether Objective-C instance messages were included.
    pub objc_instance_messages: bool,
    /// Indicates whether Objective-C class messages were included.
    pub objc_class_messages: bool,
    /// Indicates whether Objective-C selector names were included.
    pub objc_selector_names: bool,
}

impl CompletionContext {
    /// The contexts the bit flags `flags` select.
    pub open spec fn from_flags(flags: i32) -> Self {
        CompletionContext {
            all_types: has_bit(flags, 1),
            all_values: has_bit(flags, 2),
            class_type_values: has_bit(flags, 16),
            dot_members: has_bit(flags, 32),
            arrow_members: has_bit(flags, 64),
            enum_tags: has_bit(flags, 256),
            union_tags: has_bit(flags, 512),
            struct_tags: has_bit(flags, 1024),
            class_names: has_bit(flags, 2048),
            namespaces: has_bit(flags, 4096),
            nested_name_specifiers: has_bit(flags, 8192),
            macro_names: has_bit(flags, 1048576),
            natural_language: has_bit(flags, 2097152),
            objc_object_values: has_bit(flags, 4),
            objc_selector_values: has_bit(flags, 8),
            objc_property_members: has_bit(flags, 128),
            objc_interfaces: has_bit(flags, 16384),
            objc_protocols: has_bit(flags, 32768),
            objc_categories: has_bit(flags, 65536),
            objc_instance_messages: has_bit(flags, 131072),
            objc_class_messages: has_bit(flags, 262144),
            objc_selector_names: has_bit(flags, 524288),
        }
    }

    /// The bit flags that select these contexts.
    #[verifier::opaque]
    pub open spec fn flags(self) -> i32 {
        ((if self.all_types { 1i32 } else { 0i32 })
            | (if self.all_values { 2i32 } else { 0i32 })
            | (if self.class_type_values { 16i32 } else { 0i32 })
            | (if self.dot_members { 32i32 } else { 0i32 })
            | (if self.arrow_members { 64i32 } else { 0i32 })
            | (if self.enum_tags { 256i32 } else { 0i32 })
            | (if self.union_tags { 512i32 } else { 0i32 })
            | (if self.struct_tags { 1024i32 } else { 0i32 })
            | (if self.class_names { 2048i32 } else { 0i32 })
            | (if self.namespaces { 4096i32 } else { 0i32 })
            | (if self.nested_name_specifiers { 8192i32 } else { 0i32 }))
            | ((if self.macro_names { 1048576i32 } else { 0i32 })
            | (if self.natural_language { 2097152i32 } else { 0i32 })
            | (if self.objc_object_values { 4i32 } else { 0i32 })
            | (if self.objc_selector_values { 8i32 } else { 0i32 })
            | (if self.objc_property_members { 128i32 } else { 0i32 })
            | (if self.objc_interfaces { 16384i32 } else { 0i32 })
            | (if self.objc_protocols { 32768i32 } else { 0i32 })
            | (if self.objc_categories { 65536i32 } else { 0i32 })
            | (if self.objc_instance_messages { 131072i32 } else { 0i32 })
            | (if self.objc_class_messages { 262144i32 } else { 0i32 })
            | (if self.objc_selector_names { 524288i32 } else { 0i32 }))
    }

    /// The bit flags that denote one of these contexts.
    pub open spec fn mask() -> i32 {
        4194303
    }

    /// The contexts whose bits are set in `flags` are the contexts the flags select.
    proof fn lemma_from_bits(flags: i32, contexts: Self)
        requires
            has_bit(flags, 1) == contexts.all_types,
            has_bit(flags, 2) == contexts.all_values,
            has_bit(flags, 16) == contexts.class_type_values,
            has_bit(flags, 32) == contexts.dot_members,
            has_bit(flags, 64) == contexts.arrow_members,
            has_bit(flags, 256) == contexts.enum_tags,
            has_bit(flags, 512) == contexts.union_tags,
            has_bit(flags, 1024) == contexts.struct_tags,
            has_bit(flags, 2048) == contexts.class_names,
            has_bit(flags, 4096) == contexts.namespaces,
            has_bit(flags, 8192) == contexts.nested_name_specifiers,
            has_bit(flags, 1048576) == contexts.macro_names,
            has_bit(flags, 2097152) == contexts.natural_language,
            has_bit(flags, 4) == contexts.objc_object_values,
            has_bit(flags, 8) == contexts.objc_selector_values,
            has_bit(flags, 128) == contexts.objc_property_members,
            has_bit(flags, 16384) == contexts.objc_interfaces,
            has_bit(flags, 32768) == contexts.objc_protocols,
            has_bit(flags, 65536) == contexts.objc_categories,
            has_bit(flags, 131072) == contexts.objc_instance_messages,
            has_bit(flags, 262144) == contexts.objc_class_messages,
            has_bit(flags, 524288) == contexts.objc_selector_names,
        ensures
            Self::from_flags(flags) == contexts,
    {
    }

    /// The bit flags of some contexts set the bit of each of those contexts and of no other.
    proof fn lemma_bits(self)
        ensures
            has_bit(self.flags(), 1) == self.all_types,
            has_bit(self.flags(), 2) == self.all_values,
            has_bit(self.flags(), 16) == self.class_type_values,
            has_bit(self.flags(), 32) == self.dot_members,
            has_bit(self.flags(), 64) == self.arrow_members,
            has_bit(self.flags(), 256) == self.enum_tags,
            has_bit(self.flags(), 512) == self.union_tags,
            has_bit(self.flags(), 1024) == self.struct_tags,
            has_bit(self.flags(), 2048) == self.class_names,
            has_bit(self.flags(), 4096) == self.namespaces,
            has_bit(self.flags(), 8192) == self.nested_name_specifiers,
            has_bit(self.flags(), 1048576) == self.macro_names,
            has_bit(self.flags(), 2097152) == self.natural_language,
            has_bit(self.flags(), 4) == self.objc_object_values,
            has_bit(self.flags(), 8) == self.objc_selector_values,
            has_bit(self.flags(), 128) == self.objc_property_members,
            has_bit(self.flags(), 16384) == self.objc_interfaces,
            has_bit(self.flags(), 32768) == self.objc_protocols,
            has_bit(self.flags(), 65536) == self.objc_categories,
            has_bit(self.flags(), 131072) == self.objc_instance_messages,
            has_bit(self.flags(), 262144) == self.objc_class_messages,
            has_bit(self.flags(), 524288) == self.objc_selector_names,
    {
        assert(has_bit(self.flags(), 1) == self.all_types
            && has_bit(self.flags(), 2) == self.all_values
            && has_bit(self.flags(), 16) == self.class_type_values
            && has_bit(self.flags(), 32) == self.dot_members
            && has_bit(self.flags(), 64) == self.arrow_members
            && has_bit(self.flags(), 256) == self.enum_tags
            && has_bit(self.flags(), 512) == self.union_tags
            && has_bit(self.flags(), 1024) == self.struct_tags
            && has_bit(self.flags(), 2048) == self.class_names
            && has_bit(self.flags(), 4096) == self.namespaces
            && has_bit(self.flags(), 8192) == self.nested_name_specifiers
            && has_bit(self.flags(), 1048576) == self.macro_names
            && has_bit(self.flags(), 2097152) == self.natural_language
            && has_bit(self.flags(), 4) == self.objc_object_values
            && has_bit(self.flags(), 8) == self.objc_selector_values
            && has_bit(self.flags(), 128) == self.objc_property_members
            && has_bit(self.flags(), 16384) == self.objc_interfaces
            && has_bit(self.flags(), 32768) == self.objc_protocols
            && has_bit(self.flags(), 65536) == self.objc_categories
            && has_bit(self.flags(), 131072) == self.objc_instance_messages
            && has_bit(self.flags(), 262144) == self.objc_class_messages
            && has_bit(self.flags(), 524288) == self.objc_selector_names) by {
            reveal(CompletionContext::flags);
            let b0 = self.all_types;
            let b1 = self.all_values;
            let b2 = self.class_type_values;
            let b3 = self.dot_members;
            let b4 = self.arrow_members;
            let b5 = self.enum_tags;
            let b6 = self.union_tags;
            let b7 = self.struct_tags;
            let b8 = self.class_names;
            let b9 = self.namespaces;
            let b10 = self.nested_name_specifiers;
            let b11 = self.macro_names;
            let b12 = self.natural_language;
            let b13 = self.objc_object_values;
            let b14 = self.objc_selector_values;
            let b15 = self.objc_property_members;
            let b16 = self.objc_interfaces;
            let b17 = self.objc_protocols;
            let b18 = self.objc_categories;
            let b19 = self.objc_instance_messages;
            let b20 = self.objc_class_messages;
            let b21 = self.objc_selector_names;
            let x = self.flags();
            assert(has_bit(x, 1) == b0
                && has_bit(x, 2) == b1
                && has_bit(x, 16) == b2
                && has_bit(x, 32) == b3
                && has_bit(x, 64) == b4
                && has_bit(x, 256) == b5
                && has_bit(x, 512) == b6
                && has_bit(x, 1024) == b7
                && has_bit(x, 2048) == b8
                && has_bit(x, 4096) == b9
                && has_bit(x, 8192) == b10) by (bit_vector)
                requires
                    x == ((if b0 { 1i32 } else { 0i32 }) | (if b1 { 2i32 } else { 0i32 }) | (if b2 { 16i32 } else { 0i32 }) | (if b3 { 32i32 } else { 0i32 }) | (if b4 { 64i32 } else { 0i32 }) | (if b5 { 256i32 } else { 0i32 }) | (if b6 { 512i32 } else { 0i32 }) | (if b7 { 1024i32 } else { 0i32 }) | (if b8 { 2048i32 } else { 0i32 }) | (if b9 { 4096i32 } else { 0i32 }) | (if b10 { 8192i32 } else { 0i32 })) | ((if b11 { 1048576i32 } else { 0i32 }) | (if b12 { 2097152i32 } else { 0i32 }) | (if b13 { 4i32 } else { 0i32 }) | (if b14 { 8i32 } else { 0i32 }) | (if b15 { 128i32 } else { 0i32 }) | (if b16 { 16384i32 } else { 0i32 }) | (if b17 { 32768i32 } else { 0i32 }) | (if b18 { 65536i32 } else { 0i32 }) | (if b19 { 131072i32 } else { 0i32 }) | (if b20 { 262144i32 } else { 0i32 }) | (if b21 { 524288i32 } else { 0i32 })),
            ;
            assert(has_bit(x, 1048576) == b11
                && has_bit(x, 2097152) == b12
                && has_bit(x, 4) == b13
                && has_bit(x, 8) == b14
                && has_bit(x, 128) == b15
                && has_bit(x, 16384) == b16
                && has_bit(x, 32768) == b17
                && has_bit(x, 65536) == b18
                && has_bit(x, 131072) == b19
                && has_bit(x, 262144) == b20
                && has_bit(x, 524288) == b21) by (bit_vector)
                requires
                    x == ((if b0 { 1i32 } else { 0i32 }) | (if b1 { 2i32 } else { 0i32 }) | (if b2 { 16i32 } else { 0i32 }) | (if b3 { 32i32 } else { 0i32 }) | (if b4 { 64i32 } else { 0i32 }) | (if b5 { 256i32 } else { 0i32 }) | (if b6 { 512i32 } else { 0i32 }) | (if b7 { 1024i32 } else { 0i32 }) | (if b8 { 2048i32 } else { 0i32 }) | (if b9 { 4096i32 } else { 0i32 }) | (if b10 { 8192i32 } else { 0i32 })) | ((if b11 { 1048576i32 } else { 0i32 }) | (if b12 { 2097152i32 } else { 0i32 }) | (if b13 { 4i32 } else { 0i32 }) | (if b14 { 8i32 } else { 0i32 }) | (if b15 { 128i32 } else { 0i32 }) | (if b16 { 16384i32 } else { 0i32 }) | (if b17 { 32768i32 } else { 0i32 }) | (if b18 { 65536i32 } else { 0i32 }) | (if b19 { 131072i32 } else { 0i32 }) | (if b20 { 262144i32 } else { 0i32 }) | (if b21 { 524288i32 } else { 0i32 })),
            ;
        }
    }

    /// The bit flags of some contexts select those contexts again.
    pub proof fn lemma_flags_round_trip(self)
        ensures
            Self::from_flags(self.flags()) == self,
    {
        self.lemma_bits();
        Self::lemma_from_bits(self.flags(), self);
    }

    /// The contexts some bit flags select have as flags the bits of those flags that denote
    /// contexts.
    pub proof fn lemma_options_round_trip(flags: i32)
        ensures
            Self::from_flags(flags).flags() == flags & Self::mask(),
    {
        reveal(has_bit);
        reveal(CompletionContext::flags);
        assert(((if flags & 1 != 0 { 1i32 } else { 0i32 })
            | (if flags & 2 != 0 { 2i32 } else { 0i32 })
            | (if flags & 16 != 0 { 16i32 } else { 0i32 })
            | (if flags & 32 != 0 { 32i32 } else { 0i32 })
            | (if flags & 64 != 0 { 64i32 } else { 0i32 })
            | (if flags & 256 != 0 { 256i32 } else { 0i32 })
            | (if flags & 512 != 0 { 512i32 } else { 0i32 })
            | (if flags & 1024 != 0 { 1024i32 } else { 0i32 })
            | (if flags & 2048 != 0 { 2048i32 } else { 0i32 })
            | (if flags & 4096 != 0 { 4096i32 } else { 0i32 })
            | (if flags & 8192 != 0 { 8192i32 } else { 0i32 }))
            | ((if flags & 1048576 != 0 { 1048576i32 } else { 0i32 })
            | (if flags & 2097152 != 0 { 2097152i32 } else { 0i32 })
            | (if flags & 4 != 0 { 4i32 } else { 0i32 })
            | (if flags & 8 != 0 { 8i32 } else { 0i32 })
            | (if flags & 128 != 0 { 128i32 } else { 0i32 })
            | (if flags & 16384 != 0 { 16384i32 } else { 0i32 })
            | (if flags & 32768 != 0 { 32768i32 } else { 0i32 })
            | (if flags & 65536 != 0 { 65536i32 } else { 0i32 })
            | (if flags & 131072 != 0 { 131072i32 } else { 0i32 })
            | (if flags & 262144 != 0 { 262144i32 } else { 0i32 })
            | (if flags & 524288 != 0 { 524288i32 } else { 0i32 })) == flags & 4194303) by (bit_vector);
    }
}

impl From<i32> for CompletionContext {
    fn from(flags: i32) -> (options: CompletionContext)
        ensures
            options == CompletionContext::from_flags(flags),
    {
        proof {
            reveal(has_bit);
        }
        CompletionContext {
            all_types: flags & 1 != 0,
            all_values: flags & 2 != 0,
            class_type_values: flags & 16 != 0,
            dot_members: flags & 32 != 0,
            arrow_members: flags & 64 != 0,
            enum_tags: flags & 256 != 0,
            union_tags: flags & 512 != 0,
            struct_tags: flags & 1024 != 0,
            class_names: flags & 2048 != 0,
            namespaces: flags & 4096 != 0,
            nested_name_specifiers: flags & 8192 != 0,
            macro_names: flags & 1048576 != 0,
            natural_language: flags & 2097152 != 0,
            objc_object_values: flags & 4 != 0,
            objc_selector_values: flags & 8 != 0,
            objc_property_members: flags & 128 != 0,
            objc_interfaces: flags & 16384 != 0,
            objc_protocols: flags & 32768 != 0,
            objc_categories: flags & 65536 != 0,
            objc_instance_messages: flags & 131072 != 0,
            objc_class_messages: flags & 262144 != 0,
            objc_selector_names: flags & 524288 != 0,
        }
    }
}

impl vstd::std_specs::convert::FromSpecImpl<i32> for CompletionContext {
    open spec fn obeys_from_spec() -> bool {
        true
    }

    open spec fn from_spec(flags: i32) -> CompletionContext {
        CompletionContext::from_flags(flags)
    }
}

impl From<CompletionContext> for i32 {
    fn from(options: CompletionContext) -> (flags: i32)
        ensures
            flags == options.flags(),
    {
        proof {
            reveal(CompletionContext::flags);
        }
        ((if options.all_types { 1i32 } else { 0i32 })
            | (if options.all_values { 2i32 } else { 0i32 })
            | (if options.class_type_values { 16i32 } else { 0i32 })
            | (if options.dot_members { 32i32 } else { 0i32 })
            | (if options.arrow_members { 64i32 } else { 0i32 })
            | (if options.enum_tags { 256i32 } else { 0i32 })
            | (if options.union_tags { 512i32 } else { 0i32 })
            | (if options.struct_tags { 1024i32 } else { 0i32 })
            | (if options.class_names { 2048i32 } else { 0i32 })
            | (if options.namespaces { 4096i32 } else { 0i32 })
            | (if options.nested_name_specifiers { 8192i32 } else { 0i32 }))
            | ((if options.macro_names { 1048576i32 } else { 0i32 })
            | (if options.natural_language { 2097152i32 } else { 0i32 })
            | (if options.objc_object_values { 4i32 } else { 0i32 })
            | (if options.objc_selector_values { 8i32 } else { 0i32 })
            | (if options.objc_property_members { 128i32 } else { 0i32 })
            | (if options.objc_interfaces { 16384i32 } else { 0i32 })
            | (if options.objc_protocols { 32768i32 } else { 0i32 })
            | (if options.objc_categories { 65536i32 } else { 0i32 })
            | (if options.objc_instance_messages { 131072i32 } else { 0i32 })
            | (if options.objc_class_messages { 262144i32 } else { 0i32 })
            | (if options.objc_selector_names { 524288i32 } else { 0i32 }))
    }
}

impl vstd::std_specs::convert::FromSpecImpl<CompletionContext> for i32 {
    open spec fn obeys_from_spec() -> bool {
        true
    }

    open spec fn from_spec(options: CompletionContext) -> i32 {
        options.flags()
    }
}


/// The bit flags libclang reports when it cannot tell the code completion context.
pub const UNKNOWN_CONTEXT: i32 = 8388607;

/// Returns the code completion context libclang reports as the bit flags `contexts`, if any: no
/// flags, and the flags that denote an unknown context, denote none.
pub fn get_context(contexts: i32) -> (context: Option<CompletionContext>)
    ensures
        context == if contexts != 0 && contexts != UNKNOWN_CONTEXT {
            Some(CompletionContext::from_flags(contexts))
        } else {
            None
        },
{
    if contexts != 0 && contexts != UNKNOWN_CONTEXT {
        Some(CompletionContext::from(contexts))
    } else {
        None
    }
}

/// Returns the categorization of the entity that contains a code completion context and whether
/// that entity is incomplete, given the entity kind and the incompleteness flag libclang reports:
/// the invalid code kind (and any kind the wrapper does not recognise) denotes no entity.
pub fn get_container_kind(kind: i32, incomplete: u32) -> (container: Option<(EntityKind, bool)>)
    ensures
        container is Some <==> (kind != 73 && EntityKind::is_code(kind as int)),
        container matches Some((k, i)) ==> k.code() == kind && i == (incomplete != 0),
{
    if kind == 73 {
        None
    } else {
        match EntityKind::from_raw(kind) {
            Some(k) => Some((k, incomplete != 0)),
            None => None,
        }
    }
}


impl CompletionContext {
    /// Each option is selected by libclang's bit for it.
    pub proof fn lemma_libclang_bits(flags: i32)
        ensures
            Self::from_flags(flags).all_types == (flags & 1 != 0),
            Self::from_flags(flags).all_values == (flags & 2 != 0),
            Self::from_flags(flags).class_type_values == (flags & 16 != 0),
            Self::from_flags(flags).dot_members == (flags & 32 != 0),
            Self::from_flags(flags).arrow_members == (flags & 64 != 0),
            Self::from_flags(flags).enum_tags == (flags & 256 != 0),
            Self::from_flags(flags).union_tags == (flags & 512 != 0),
            Self::from_flags(flags).struct_tags == (flags & 1024 != 0),
            Self::from_flags(flags).class_names == (flags & 2048 != 0),
            Self::from_flags(flags).namespaces == (flags & 4096 != 0),
            Self::from_flags(flags).nested_name_specifiers == (flags & 8192 != 0),
            Self::from_flags(flags).macro_names == (flags & 1048576 != 0),
            Self::from_flags(flags).natural_language == (flags & 2097152 != 0),
            Self::from_flags(flags).objc_object_values == (flags & 4 != 0),
            Self::from_flags(flags).objc_selector_values == (flags & 8 != 0),
            Self::from_flags(flags).objc_property_members == (flags & 128 != 0),
            Self::from_flags(flags).objc_interfaces == (flags & 16384 != 0),
            Self::from_flags(flags).objc_protocols == (flags & 32768 != 0),
            Self::from_flags(flags).objc_categories == (flags & 65536 != 0),
            Self::from_flags(flags).objc_instance_messages == (flags & 131072 != 0),
            Self::from_flags(flags).objc_class_messages == (flags & 262144 != 0),
            Self::from_flags(flags).objc_selector_names == (flags & 524288 != 0),
    {
        reveal(has_bit);
    }
}

} // verus!
