//! Parsing source files into translation units.

use vstd::prelude::*;

use crate::kind::MemoryUsage;
use crate::utility::{set_flag, with_flag};

verus! {

/// Whether `s` holds no NUL character, as the strings libclang reads must.
pub open spec fn no_nul(s: Seq<char>) -> bool {
    forall|i: int| 0 <= i < s.len() ==> s[i] != '\0'
}

/// The path to and unsaved contents of a previously existing file.
#[derive(Clone, Debug, PartialEq, Eq, Hash)]
pub struct Unsaved {
    path: String,
    contents: String,
}

impl Unsaved {
    /// The path of the file.
    pub closed spec fn path_of(self) -> Seq<char> {
        self.path@
    }

    /// The unsaved contents of the file.
    pub closed spec fn contents_of(self) -> Seq<char> {
        self.contents@
    }

    /// Constructs a new `Unsaved`.
    pub fn new(path: &str, contents: &str) -> (unsaved: Unsaved)
        requires
            no_nul(path@),
            no_nul(contents@),
        ensures
            unsaved.path_of() == path@,
            unsaved.contents_of() == contents@,
    {
        Unsaved { path: path.to_owned(), contents: contents.to_owned() }
    }

    /// Returns the path of the file.
    pub fn get_path(&self) -> (path: &String)
        ensures
            path@ == self.path_of(),
    {
        &self.path
    }

    /// Returns the unsaved contents of the file.
    pub fn get_contents(&self) -> (contents: &String)
        ensures
            contents@ == self.contents_of(),
    {
        &self.contents
    }
}

/// Parses translation units.
///
/// The parser holds what libclang is asked to parse: the index (of type `I`) the translation unit
/// is created in, the source file, the compiler arguments, the unsaved files, and the parsing
/// options as libclang's bit flags.
pub struct Parser<I> {
    index: I,
    file: String,
    arguments: Vec<String>,
    unsaved: Vec<Unsaved>,
    flags: i32,
}

impl<I> Parser<I> {
    /// The index the translation unit is created in.
    pub closed spec fn index_of(self) -> I {
        self.index
    }

    /// The path of the source file.
    pub closed spec fn file_of(self) -> Seq<char> {
        self.file@
    }

    /// The compiler arguments.
    pub closed spec fn arguments_of(self) -> Seq<Seq<char>> {
        self.arguments@.map_values(|a: String| a@)
    }

    /// The unsaved files.
    pub closed spec fn unsaved_of(self) -> Seq<Unsaved> {
        self.unsaved@
    }

    /// The parsing options, as libclang's bit flags.
    pub closed spec fn flags_of(self) -> i32 {
        self.flags
    }

    /// Whether this parser is `other` with the parsing options `flags`.
    pub open spec fn reconfigures(self, other: Self, flags: i32) -> bool {
        &&& self.index_of() == other.index_of()
        &&& self.file_of() == other.file_of()
        &&& self.arguments_of() == other.arguments_of()
        &&& self.unsaved_of() == other.unsaved_of()
        &&& self.flags_of() == flags
    }

    //- Constructors -----------------------------

    /// Constructs a parser of the source file `file` in `index`, with no arguments, no unsaved
    /// files, and no options set.
    pub fn new(index: I, file: String) -> (parser: Parser<I>)
        ensures
            parser.index_of() == index,
            parser.file_of() == file@,
            parser.arguments_of() == Seq::<Seq<char>>::empty(),
            parser.unsaved_of() == Seq::<Unsaved>::empty(),
            parser.flags_of() == 0,
    {
        let parser = Parser { index, file, arguments: Vec::new(), unsaved: Vec::new(), flags: 0 };
        assert(parser.arguments_of() =~= Seq::<Seq<char>>::empty());
        parser
    }

    //- Mutators ---------------------------------

    /// Sets whether certain code completion results will be cached when the translation unit is
    /// reparsed.
    ///
    /// This option increases the time it takes to reparse the translation unit but improves
    /// code completion performance.
    pub fn cache_completion_results(&mut self, cache_completion_results: bool) -> (result: &mut Parser<I>)
        ensures
            result.reconfigures(*old(self), with_flag(old(self).flags_of(), 8, cache_completion_results)),
            *final(self) == *final(result),
    {
        self.flags = set_flag(self.flags, 8, cache_completion_results);
        self
    }

    /// Sets whether a detailed preprocessing record will be constructed which tracks all macro
    /// definitions and instantiations.
    pub fn detailed_preprocessing_record(&mut self, detailed_preprocessing_record: bool) -> (result: &mut Parser<I>)
        ensures
            result.reconfigures(*old(self), with_flag(old(self).flags_of(), 1, detailed_preprocessing_record)),
            *final(self) == *final(result),
    {
        self.flags = set_flag(self.flags, 1, detailed_preprocessing_record);
        self
    }

    /// Sets whether documentation comment briefs will be included in code completion results.
    pub fn briefs_in_completion_results(&mut self, briefs_in_completion_results: bool) -> (result: &mut Parser<I>)
        ensures
            result.reconfigures(*old(self), with_flag(old(self).flags_of(), 128, briefs_in_completion_results)),
            *final(self) == *final(result),
    {
        self.flags = set_flag(self.flags, 128, briefs_in_completion_results);
        self
    }

    /// Sets whether the translation unit will be considered incomplete.
    ///
    /// This option suppresses certain semantic analyses and is typically used when parsing
    /// headers with the intent of creating a precompiled header.
    pub fn incomplete(&mut self, incomplete: bool) -> (result: &mut Parser<I>)
        ensures
            result.reconfigures(*old(self), with_flag(old(self).flags_of(), 2, incomplete)),
            *final(self) == *final(result),
    {
        self.flags = set_flag(self.flags, 2, incomplete);
        self
    }

    /// Sets whether function and method bodies will be skipped.
    pub fn skip_function_bodies(&mut self, skip_function_bodies: bool) -> (result: &mut Parser<I>)
        ensures
            result.reconfigures(*old(self), with_flag(old(self).flags_of(), 64, skip_function_bodies)),
            *final(self) == *final(result),
    {
        self.flags = set_flag(self.flags, 64, skip_function_bodies);
        self
    }

    /// Sets whether processing will continue after a fatal error is encountered.
    pub fn keep_going(&mut self, keep_going: bool) -> (result: &mut Parser<I>)
        ensures
            result.reconfigures(*old(self), with_flag(old(self).flags_of(), 512, keep_going)),
            *final(self) == *final(result),
    {
        self.flags = set_flag(self.flags, 512, keep_going);
        self
    }

    /// Sets whether incremental processing will be used.
    pub fn single_file_parse(&mut self, single_file_parse: bool) -> (result: &mut Parser<I>)
        ensures
            result.reconfigures(*old(self), with_flag(old(self).flags_of(), 1024, single_file_parse)),
            *final(self) == *final(result),
    {
        self.flags = set_flag(self.flags, 1024, single_file_parse);
        self
    }

    /// Sets whether function bodies will only be skipped in the preamble.
    ///
    /// Used in conjunction with `skip_function_bodies`.
    pub fn limit_skip_function_bodies_to_preamble(&mut self, limit_skip_function_bodies_to_preamble: bool) -> (result: &mut Parser<I>)
        ensures
            result.reconfigures(*old(self), with_flag(old(self).flags_of(), 2048, limit_skip_function_bodies_to_preamble)),
            *final(self) == *final(result),
    {
        self.flags = set_flag(self.flags, 2048, limit_skip_function_bodies_to_preamble);
        self
    }

    /// Sets whether attributed types should be included.
    pub fn include_attributed_types(&mut self, include_attributed_types: bool) -> (result: &mut Parser<I>)
        ensures
            result.reconfigures(*old(self), with_flag(old(self).flags_of(), 4096, include_attributed_types)),
            *final(self) == *final(result),
    {
        self.flags = set_flag(self.flags, 4096, include_attributed_types);
        self
    }

    /// Sets whether implicit attributes should be visited.
    pub fn visit_implicit_attributes(&mut self, visit_implicit_attributes: bool) -> (result: &mut Parser<I>)
        ensures
            result.reconfigures(*old(self), with_flag(old(self).flags_of(), 8192, visit_implicit_attributes)),
            *final(self) == *final(result),
    {
        self.flags = set_flag(self.flags, 8192, visit_implicit_attributes);
        self
    }

    /// Indicates that non-errors (e.g. warnings) from included files should be ignored.
    pub fn ignore_non_errors_from_included_files(&mut self, ignore_non_errors_from_included_files: bool) -> (result: &mut Parser<I>)
        ensures
            result.reconfigures(*old(self), with_flag(old(self).flags_of(), 16384, ignore_non_errors_from_included_files)),
            *final(self) == *final(result),
    {
        self.flags = set_flag(self.flags, 16384, ignore_non_errors_from_included_files);
        self
    }

    /// Sets whether the preprocessor will retain excluded conditional blocks.
    pub fn retain_excluded_conditional_blocks(&mut self, retain_excluded_conditional_blocks: bool) -> (result: &mut Parser<I>)
        ensures
            result.reconfigures(*old(self), with_flag(old(self).flags_of(), 32768, retain_excluded_conditional_blocks)),
            *final(self) == *final(result),
    {
        self.flags = set_flag(self.flags, 32768, retain_excluded_conditional_blocks);
        self
    }

    /// Sets the compiler arguments to provide to `libclang`.
    ///
    /// Any compiler argument that could be supplied to `clang` may be supplied to this
    /// function. However, the following arguments are ignored:
    ///
    /// * `-c`
    /// * `-emit-ast`
    /// * `-fsyntax-only`
    /// * `-o` and the following `<output>`
    pub fn arguments(&mut self, arguments: Vec<String>) -> (result: &mut Parser<I>)
        requires
            forall|i: int| 0 <= i < arguments.len() ==> no_nul(#[trigger] arguments@[i]@),
        ensures
            result.index_of() == old(self).index_of(),
            result.file_of() == old(self).file_of(),
            result.arguments_of() == arguments@.map_values(|a: String| a@),
            result.unsaved_of() == old(self).unsaved_of(),
            result.flags_of() == old(self).flags_of(),
            *final(self) == *final(result),
    {
        self.arguments = arguments;
        self
    }

    /// Sets the unsaved files to use.
    pub fn unsaved(&mut self, unsaved: Vec<Unsaved>) -> (result: &mut Parser<I>)
        ensures
            result.index_of() == old(self).index_of(),
            result.file_of() == old(self).file_of(),
            result.arguments_of() == old(self).arguments_of(),
            result.unsaved_of() == unsaved@,
            result.flags_of() == old(self).flags_of(),
            *final(self) == *final(result),
    {
        self.unsaved = unsaved;
        self
    }

    //- Accessors --------------------------------

    /// Returns the index the translation unit is created in.
    pub fn get_index(&self) -> (index: &I)
        ensures
            *index == self.index_of(),
    {
        &self.index
    }

    /// Returns the path of the source file.
    pub fn get_file(&self) -> (file: &String)
        ensures
            file@ == self.file_of(),
    {
        &self.file
    }

    /// Returns the compiler arguments.
    pub fn get_arguments(&self) -> (arguments: &Vec<String>)
        ensures
            arguments@.map_values(|a: String| a@) == self.arguments_of(),
    {
        &self.arguments
    }

    /// Returns the unsaved files.
    pub fn get_unsaved(&self) -> (unsaved: &Vec<Unsaved>)
        ensures
            unsaved@ == self.unsaved_of(),
    {
        &self.unsaved
    }

    /// Returns the parsing options, as libclang's bit flags.
    pub fn get_flags(&self) -> (flags: i32)
        ensures
            flags == self.flags_of(),
    {
        self.flags
    }
}

//================================================
// Memory usage
//================================================

/// The memory usage category whose value is `raw`.
pub open spec fn usage_kind(raw: i32) -> MemoryUsage {
    choose|kind: MemoryUsage| kind.code() == raw
}

/// The memory usage libclang reports as the entries `entries` (each a raw usage category and an
/// amount of bytes): the entries whose category the wrapper recognises, in order.
pub open spec fn memory_usage(entries: Seq<(i32, u64)>) -> Seq<(MemoryUsage, usize)>
    decreases entries.len(),
{
    if entries.len() == 0 {
        Seq::empty()
    } else {
        let rest = memory_usage(entries.drop_last());
        let (kind, amount) = entries.last();
        if MemoryUsage::is_code(kind as int) {
            rest.push((usage_kind(kind), amount as usize))
        } else {
            rest
        }
    }
}

/// The memory usage of some entries keeps, in order, the entries of the categories libclang
/// names, each read as the category of its value with its amount; an entry of another category
/// is dropped.
pub proof fn lemma_memory_usage(entries: Seq<(i32, u64)>, kind: MemoryUsage, raw: i32, amount: u64)
    ensures
        memory_usage(Seq::<(i32, u64)>::empty()) == Seq::<(MemoryUsage, usize)>::empty(),
        memory_usage(entries.push((kind.code() as i32, amount))) == memory_usage(entries).push(
            (kind, amount as usize),
        ),
        !MemoryUsage::is_code(raw as int) ==> memory_usage(entries.push((raw, amount)))
            == memory_usage(entries),
{
    let e = entries.push((kind.code() as i32, amount));
    assert(e.drop_last() =~= entries);
    let f = entries.push((raw, amount));
    assert(f.drop_last() =~= entries);
    kind.lemma_code(usage_kind(kind.code() as i32));
    assert(kind.code() == kind.code() as i32);
}

/// Returns the memory usage libclang reports as the entries `entries` (each a raw usage category
/// and an amount of bytes), keeping the entries whose category the wrapper recognises.
pub fn get_memory_usage(entries: &Vec<(i32, u64)>) -> (usage: Vec<(MemoryUsage, usize)>)
    ensures
        usage@ == memory_usage(entries@),
{
    let mut usage: Vec<(MemoryUsage, usize)> = Vec::new();
    let mut i: usize = 0;
    while i < entries.len()
        invariant
            i <= entries.len(),
            usage@ == memory_usage(entries@.take(i as int)),
        decreases entries.len() - i,
    {
        let (kind, amount) = entries[i];
        assert(entries@.take(i + 1).drop_last() =~= entries@.take(i as int));
        match MemoryUsage::from_raw(kind) {
            Some(k) => {
                proof {
                    let c = usage_kind(kind);
                    k.lemma_code(c);
                }
                usage.push((k, amount as usize));
            },
            None => {},
        }
        i = i + 1;
    }
    assert(entries@.take(entries.len() as int) =~= entries@);
    usage
}

} // verus!
