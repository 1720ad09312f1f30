//! Comments.

use vstd::prelude::*;

verus! {

//================================================
// Enums
//================================================

// CommentChild __________________________________

/// A child component of a comment.
#[derive(Debug, PartialEq, Eq)]
pub enum CommentChild {
    /// A block command with zero or more arguments and a paragraph as an argument.
    BlockCommand(BlockCommand),
    /// An HTML start tag.
    HtmlStartTag(HtmlStartTag),
    /// An HTML end tag.
    HtmlEndTag(String),
    /// An inline command with word-like arguments.
    InlineCommand(InlineCommand),
    /// A paragraph containing inline content.
    Paragraph(Vec<CommentChild>),
    /// A `\param` command.
    ParamCommand(ParamCommand),
    /// A `\tparam` command.
    TParamCommand(TParamCommand),
    /// Plain text.
    Text(String),
    /// A verbatim command with a closing command.
    VerbatimCommand(Vec<String>),
    /// A verbatim command with a single line and no closing command.
    VerbatimLineCommand(String),
}

// ParameterDirection ____________________________

/// Indicates the parameter passing direction for a `\param` command.
#[derive(Copy, Clone, Debug, PartialEq, Eq, Hash, Structural)]
pub enum ParameterDirection {
    /// Indicates the parameter is an input parameter.
    In,
    /// Indicates the parameter is an output parameter.
    Out,
    /// Indicates the parameter is both an input and an output parameter.
    InOut,
}

impl ParameterDirection {
    /// The value libclang uses for this parameter direction.
    pub open spec fn code(self) -> int {
        match self {
            ParameterDirection::In => 0,
            ParameterDirection::Out => 1,
            ParameterDirection::InOut => 2,
        }
    }

    /// Returns the value libclang uses for this parameter direction.
    pub fn to_raw(self) -> (raw: i32)
        ensures
            raw == self.code(),
    {
        match self {
            ParameterDirection::In => 0,
            ParameterDirection::Out => 1,
            ParameterDirection::InOut => 2,
        }
    }

    /// Whether `raw` is one of the values that `from_raw` recognises.
    pub open spec fn is_code(raw: int) -> bool {
        0 <= raw <= 2
    }

    /// Returns the parameter direction that libclang denotes by `raw`, if `raw` is a recognised value.
    pub fn from_raw(raw: i32) -> (result: Option<Self>)
        ensures
            result is Some <==> Self::is_code(raw as int),
            result matches Some(k) ==> k.code() == raw,
    {
        match raw {
            0 => Some(ParameterDirection::In),
            1 => Some(ParameterDirection::Out),
            2 => Some(ParameterDirection::InOut),
            _ => None,
        }
    }

    spec fn decode(raw: int) -> Option<Self> {
        if raw == 0 {
            Some(ParameterDirection::In)
        } else if raw == 1 {
            Some(ParameterDirection::Out)
        } else if raw == 2 {
            Some(ParameterDirection::InOut)
        } else {
            None
        }
    }

    proof fn lemma_decode(self)
        ensures
            Self::decode(self.code()) == Some(self),
    {
        match self {
            ParameterDirection::In => {},
            ParameterDirection::Out => {},
            ParameterDirection::InOut => {},
        }
    }

    /// No two variants share a value; every variant's value is recognised by `from_raw`.
    pub proof fn lemma_code(self, other: Self)
        ensures
            self.code() == other.code() ==> self == other,
            Self::is_code(self.code()),
    {
        self.lemma_decode();
        other.lemma_decode();
    }
}

// InlineCommandStyle ____________________________

/// Indicates the appropriate rendering style for an inline command argument.
#[derive(Copy, Clone, Debug, PartialEq, Eq, Hash, Structural)]
pub enum InlineCommandStyle {
    /// Indicates the command should be rendered in a bold font.
    Bold,
    /// Indicates the command should be rendered in a monospace font.
    Monospace,
    /// Indicates the command should be rendered emphasized (typically italicized).
    Emphasized,
}

impl InlineCommandStyle {
    /// The value libclang uses for this rendering style.
    pub open spec fn code(self) -> int {
        match self {
            InlineCommandStyle::Bold => 1,
            InlineCommandStyle::Monospace => 2,
            InlineCommandStyle::Emphasized => 3,
        }
    }

    /// Returns the value libclang uses for this rendering style.
    pub fn to_raw(self) -> (raw: i32)
        ensures
            raw == self.code(),
    {
        match self {
            InlineCommandStyle::Bold => 1,
            InlineCommandStyle::Monospace => 2,
            InlineCommandStyle::Emphasized => 3,
        }
    }

    /// Whether `raw` is one of the values that `from_raw` recognises.
    pub open spec fn is_code(raw: int) -> bool {
        1 <= raw <= 3
    }

    /// Returns the rendering style that libclang denotes by `raw`, if `raw` is a recognised value.
    pub fn from_raw(raw: i32) -> (result: Option<Self>)
        ensures
            result is Some <==> Self::is_code(raw as int),
            result matches Some(k) ==> k.code() == raw,
    {
        match raw {
            1 => Some(InlineCommandStyle::Bold),
            2 => Some(InlineCommandStyle::Monospace),
            3 => Some(InlineCommandStyle::Emphasized),
            _ => None,
        }
    }

    spec fn decode(raw: int) -> Option<Self> {
        if raw == 1 {
            Some(InlineCommandStyle::Bold)
        } else if raw == 2 {
            Some(InlineCommandStyle::Monospace)
        } else if raw == 3 {
            Some(InlineCommandStyle::Emphasized)
        } else {
            None
        }
    }

    proof fn lemma_decode(self)
        ensures
            Self::decode(self.code()) == Some(self),
    {
        match self {
            InlineCommandStyle::Bold => {},
            InlineCommandStyle::Monospace => {},
            InlineCommandStyle::Emphasized => {},
        }
    }

    /// No two variants share a value; every variant's value is recognised by `from_raw`.
    pub proof fn lemma_code(self, other: Self)
        ensures
            self.code() == other.code() ==> self == other,
            Self::is_code(self.code()),
    {
        self.lemma_decode();
        other.lemma_decode();
    }
}

impl InlineCommandStyle {
    /// Returns the rendering style libclang reports as the render kind `raw`: the normal render
    /// kind (and any kind the wrapper does not recognise) denotes no style.
    pub fn from_render_kind(raw: i32) -> (style: Option<Self>)
        ensures
            style is Some <==> 1 <= raw <= 3,
            style matches Some(s) ==> s.code() == raw,
    {
        if raw == 0 {
            None
        } else {
            Self::from_raw(raw)
        }
    }
}

//================================================
// Structs
//================================================

// BlockCommand __________________________________

/// A block command with zero or more arguments and a paragraph as an argument.
#[derive(Debug, PartialEq, Eq)]
pub struct BlockCommand {
    /// The command.
    pub command: String,
    /// The command arguments.
    pub arguments: Vec<String>,
    /// The children of the paragraph argument.
    pub children: Vec<CommentChild>,
}

// HtmlStartTag __________________________________

/// An HTML start tag.
#[derive(Debug, PartialEq, Eq)]
pub struct HtmlStartTag {
    /// The tag name.
    pub name: String,
    /// The attributes associated with the tag, if any.
    pub attributes: Vec<(String, String)>,
    /// Whether the tag is self-closing.
    pub closing: bool,
}

// InlineCommand _________________________________

/// An inline command with word-like arguments.
#[derive(Debug, PartialEq, Eq)]
pub struct InlineCommand {
    /// The command.
    pub command: String,
    /// The command arguments.
    pub arguments: Vec<String>,
    /// The style with which to render the command arguments, if any.
    pub style: Option<InlineCommandStyle>,
}

// ParamCommand __________________________________

/// A `\param` command.
#[derive(Debug, PartialEq, Eq)]
pub struct ParamCommand {
    /// The index of the parameter, if this command refers to a valid parameter.
    pub index: Option<usize>,
    /// The parameter.
    pub parameter: String,
    /// The parameter direction, if specified.
    pub direction: Option<ParameterDirection>,
    /// The children of this parameter.
    pub children: Vec<CommentChild>,
}

// TParamCommand _________________________________

/// A `\tparam` command.
#[derive(Debug, PartialEq, Eq)]
pub struct TParamCommand {
    /// The nesting depth and the index of the template parameter, if this command refers to a
    /// valid template parameter.
    pub position: Option<(usize, usize)>,
    /// The template parameter.
    pub parameter: String,
    /// The children of this type parameter.
    pub children: Vec<CommentChild>,
}


//================================================
// Comment trees
//================================================

// RawComment ____________________________________

/// A node of a comment tree as libclang reports it, read into plain values.
///
/// Which fields are read depends on `kind`, libclang's kind of the node: the text of a text or
/// verbatim line node; the command or tag name and the arguments of a command or HTML tag; the
/// attributes and self-closing flag of an HTML start tag; the render kind of an inline command;
/// the parameter index (present only when libclang reports it valid), the direction code
/// (present only when it is given explicitly) and the template parameter position (present only
/// when valid) of a `\param` or `\tparam` command; and the children of a paragraph, of the
/// paragraph argument of a block, `\param` or `\tparam` command, or the lines of a verbatim block.
pub struct RawComment {
    /// libclang's kind of this node.
    pub kind: i32,
    /// The text of a text node, a verbatim line, or a line of a verbatim block.
    pub text: String,
    /// The command or tag name.
    pub name: String,
    /// The arguments of a command.
    pub arguments: Vec<String>,
    /// The attributes (name and value) of an HTML start tag.
    pub attributes: Vec<(String, String)>,
    /// Whether an HTML start tag is self-closing.
    pub self_closing: bool,
    /// The render kind of an inline command.
    pub render_kind: i32,
    /// The index of the parameter of a `\param` command, if valid.
    pub param_index: Option<u32>,
    /// The direction code of a `\param` command, if explicit.
    pub direction: Option<i32>,
    /// The nesting depth and index of the template parameter of a `\tparam` command, if valid.
    pub position: Option<(u32, u32)>,
    /// The child nodes.
    pub children: Vec<RawComment>,
}

/// Whether libclang's comment kind `kind` is that of a child of a comment: text (1), an inline
/// command (2), an HTML start tag (3) or end tag (4), a paragraph (5), a block command (6), a
/// `\param` command (7), a `\tparam` command (8), a verbatim block (9), or a verbatim line (11).
pub open spec fn is_child_kind(kind: i32) -> bool {
    1 <= kind <= 9 || kind == 11
}

/// Whether the kind `kind` is that of a node whose children are themselves comment children.
pub open spec fn has_child_nodes(kind: i32) -> bool {
    5 <= kind <= 8
}

/// Whether `raw` is a comment child that the conversion recognises: its kind is a child kind,
/// a `\param` command's direction code is a known one, and its child nodes are recognised too.
pub open spec fn well_formed(raw: RawComment) -> bool
    decreases raw, 0nat,
{
    &&& is_child_kind(raw.kind)
    &&& (raw.kind == 7 ==> match raw.direction {
        Some(d) => ParameterDirection::is_code(d as int),
        None => true,
    })
    &&& (has_child_nodes(raw.kind) ==> all_well_formed(raw.children@))
}

/// Whether every node of `raws` is a recognised comment child.
pub open spec fn all_well_formed(raws: Seq<RawComment>) -> bool
    decreases raws, 1nat,
{
    if raws.len() == 0 {
        true
    } else {
        all_well_formed(raws.drop_last()) && well_formed(raws.last())
    }
}

/// Whether the lines `lines` are the texts of the nodes `raws`.
pub open spec fn texts_of(raws: Seq<RawComment>, lines: Seq<String>) -> bool {
    &&& raws.len() == lines.len()
    &&& forall|k: int| 0 <= k < raws.len() ==> lines[k] == (#[trigger] raws[k]).text
}

/// Whether `child` is the comment child that the node `raw` describes.
pub open spec fn describes(raw: RawComment, child: CommentChild) -> bool
    decreases raw, 0nat,
{
    if raw.kind == 1 {
        child == CommentChild::Text(raw.text)
    } else if raw.kind == 2 {
        &&& child matches CommentChild::InlineCommand(c)
        &&& c.command == raw.name
        &&& c.arguments@ == raw.arguments@
        &&& (c.style is Some <==> 1 <= raw.render_kind <= 3)
        &&& (c.style matches Some(s) ==> s.code() == raw.render_kind)
    } else if raw.kind == 3 {
        &&& child matches CommentChild::HtmlStartTag(t)
        &&& t.name == raw.name
        &&& t.attributes@ == raw.attributes@
        &&& t.closing == raw.self_closing
    } else if raw.kind == 4 {
        child == CommentChild::HtmlEndTag(raw.name)
    } else if raw.kind == 5 {
        &&& child matches CommentChild::Paragraph(cs)
        &&& describes_all(raw.children@, cs@)
    } else if raw.kind == 6 {
        &&& child matches CommentChild::BlockCommand(b)
        &&& b.command == raw.name
        &&& b.arguments@ == raw.arguments@
        &&& describes_all(raw.children@, b.children@)
    } else if raw.kind == 7 {
        &&& child matches CommentChild::ParamCommand(p)
        &&& p.index == match raw.param_index {
            Some(i) => Some(i as usize),
            None => None,
        }
        &&& p.parameter == raw.name
        &&& (p.direction is Some <==> raw.direction is Some)
        &&& (p.direction matches Some(d) ==> d.code() == raw.direction.unwrap())
        &&& describes_all(raw.children@, p.children@)
    } else if raw.kind == 8 {
        &&& child matches CommentChild::TParamCommand(t)
        &&& t.position == match raw.position {
            Some((depth, index)) => Some((depth as usize, index as usize)),
            None => None,
        }
        &&& t.parameter == raw.name
        &&& describes_all(raw.children@, t.children@)
    } else if raw.kind == 9 {
        &&& child matches CommentChild::VerbatimCommand(lines)
        &&& texts_of(raw.children@, lines@)
    } else {
        child == CommentChild::VerbatimLineCommand(raw.text)
    }
}

/// Whether `children` are, in order, the comment children that the nodes `raws` describe.
pub open spec fn describes_all(raws: Seq<RawComment>, children: Seq<CommentChild>) -> bool
    decreases raws, 1nat,
{
    if raws.len() == 0 {
        children.len() == 0
    } else {
        &&& children.len() == raws.len()
        &&& describes_all(raws.drop_last(), children.drop_last())
        &&& describes(raws.last(), children.last())
    }
}


/// A comment node becomes the comment child of its libclang kind: text (1), an inline command
/// (2), an HTML start tag (3) or end tag (4), a paragraph (5), a block command (6), a `\param`
/// command (7), a `\tparam` command (8), a verbatim block (9), or a verbatim line (11); and a
/// `\param` command's direction is libclang's direction of that code.
pub proof fn lemma_child_kinds(raw: RawComment, child: CommentChild)
    requires
        is_child_kind(raw.kind),
        describes(raw, child),
    ensures
        raw.kind == 1 ==> child is Text,
        raw.kind == 2 ==> child is InlineCommand,
        raw.kind == 3 ==> child is HtmlStartTag,
        raw.kind == 4 ==> child is HtmlEndTag,
        raw.kind == 5 ==> child is Paragraph,
        raw.kind == 6 ==> child is BlockCommand,
        raw.kind == 7 ==> child is ParamCommand,
        raw.kind == 8 ==> child is TParamCommand,
        raw.kind == 9 ==> child is VerbatimCommand,
        raw.kind == 11 ==> child is VerbatimLineCommand,
        child matches CommentChild::ParamCommand(p) ==> (raw.direction == Some(0i32) ==> p.direction
            == Some(ParameterDirection::In)) && (raw.direction == Some(1i32) ==> p.direction == Some(
            ParameterDirection::Out,
        )) && (raw.direction == Some(2i32) ==> p.direction == Some(ParameterDirection::InOut)),
        child matches CommentChild::Text(t) ==> t == raw.text,
        child matches CommentChild::HtmlEndTag(n) ==> n == raw.name,
{
}

proof fn lemma_all_well_formed(raws: Seq<RawComment>, i: int)
    requires
        all_well_formed(raws),
        0 <= i < raws.len(),
    ensures
        well_formed(raws[i]),
    decreases raws.len(),
{
    if i < raws.len() - 1 {
        lemma_all_well_formed(raws.drop_last(), i);
    }
}

/// Returns a copy of the strings `v`.
fn copy_strings(v: &Vec<String>) -> (copy: Vec<String>)
    ensures
        copy@ == v@,
{
    let mut copy: Vec<String> = Vec::new();
    let mut i: usize = 0;
    while i < v.len()
        invariant
            i <= v.len(),
            copy@ == v@.take(i as int),
        decreases v.len() - i,
    {
        copy.push(v[i].clone());
        assert(v@.take(i + 1) =~= v@.take(i as int).push(v@[i as int]));
        i = i + 1;
    }
    assert(v@.take(v.len() as int) =~= v@);
    copy
}

/// Returns a copy of the pairs of strings `v`.
fn copy_attributes(v: &Vec<(String, String)>) -> (copy: Vec<(String, String)>)
    ensures
        copy@ == v@,
{
    let mut copy: Vec<(String, String)> = Vec::new();
    let mut i: usize = 0;
    while i < v.len()
        invariant
            i <= v.len(),
            copy@ == v@.take(i as int),
        decreases v.len() - i,
    {
        let (name, value) = &v[i];
        copy.push((name.clone(), value.clone()));
        assert(v@.take(i + 1) =~= v@.take(i as int).push(v@[i as int]));
        i = i + 1;
    }
    assert(v@.take(v.len() as int) =~= v@);
    copy
}

/// Returns the texts of the nodes `raws`.
fn texts(raws: &Vec<RawComment>) -> (lines: Vec<String>)
    ensures
        texts_of(raws@, lines@),
{
    let mut lines: Vec<String> = Vec::new();
    let mut i: usize = 0;
    while i < raws.len()
        invariant
            i <= raws.len(),
            lines@.len() == i,
            forall|k: int| 0 <= k < i ==> lines@[k] == (#[trigger] raws@[k]).text,
        decreases raws.len() - i,
    {
        lines.push(raws[i].text.clone());
        i = i + 1;
    }
    lines
}

/// Returns whether `raw` is a comment child that `child_from_raw` recognises.
pub fn is_well_formed(raw: &RawComment) -> (result: bool)
    ensures
        result == well_formed(*raw),
    decreases *raw, 0nat,
{
    let kind_ok = (1 <= raw.kind && raw.kind <= 9) || raw.kind == 11;
    let direction_ok = raw.kind != 7 || match raw.direction {
        Some(d) => 0 <= d && d <= 2,
        None => true,
    };
    if !kind_ok || !direction_ok {
        return false;
    }
    if 5 <= raw.kind && raw.kind <= 8 {
        are_well_formed(&raw.children)
    } else {
        true
    }
}

/// Returns whether every node of `raws` is a comment child that `child_from_raw` recognises.
fn are_well_formed(raws: &Vec<RawComment>) -> (result: bool)
    ensures
        result == all_well_formed(raws@),
    decreases *raws, 1nat,
{
    let mut i: usize = 0;
    assert(raws@.take(0) =~= Seq::<RawComment>::empty());
    while i < raws.len()
        invariant
            i <= raws.len(),
            all_well_formed(raws@.take(i as int)),
        decreases raws.len() - i,
    {
        assert(raws@.take(i + 1).drop_last() =~= raws@.take(i as int));
        if !is_well_formed(&raws[i]) {
            proof {
                if all_well_formed(raws@) {
                    lemma_all_well_formed(raws@, i as int);
                }
            }
            return false;
        }
        i = i + 1;
    }
    assert(raws@.take(raws.len() as int) =~= raws@);
    true
}

/// Returns the comment child that the node `raw` describes.
pub fn child_from_raw(raw: &RawComment) -> (child: CommentChild)
    requires
        well_formed(*raw),
    ensures
        describes(*raw, child),
    decreases *raw, 0nat,
{
    if raw.kind == 1 {
        CommentChild::Text(raw.text.clone())
    } else if raw.kind == 2 {
        CommentChild::InlineCommand(InlineCommand {
            command: raw.name.clone(),
            arguments: copy_strings(&raw.arguments),
            style: InlineCommandStyle::from_render_kind(raw.render_kind),
        })
    } else if raw.kind == 3 {
        CommentChild::HtmlStartTag(HtmlStartTag {
            name: raw.name.clone(),
            attributes: copy_attributes(&raw.attributes),
            closing: raw.self_closing,
        })
    } else if raw.kind == 4 {
        CommentChild::HtmlEndTag(raw.name.clone())
    } else if raw.kind == 5 {
        CommentChild::Paragraph(children_from_raw(&raw.children))
    } else if raw.kind == 6 {
        CommentChild::BlockCommand(BlockCommand {
            command: raw.name.clone(),
            arguments: copy_strings(&raw.arguments),
            children: children_from_raw(&raw.children),
        })
    } else if raw.kind == 7 {
        let index = match raw.param_index {
            Some(i) => Some(i as usize),
            None => None,
        };
        let direction = match raw.direction {
            Some(d) => Some(ParameterDirection::from_raw(d).unwrap()),
            None => None,
        };
        CommentChild::ParamCommand(ParamCommand {
            index,
            parameter: raw.name.clone(),
            direction,
            children: children_from_raw(&raw.children),
        })
    } else if raw.kind == 8 {
        let position = match raw.position {
            Some((depth, index)) => Some((depth as usize, index as usize)),
            None => None,
        };
        CommentChild::TParamCommand(TParamCommand {
            position,
            parameter: raw.name.clone(),
            children: children_from_raw(&raw.children),
        })
    } else if raw.kind == 9 {
        CommentChild::VerbatimCommand(texts(&raw.children))
    } else {
        CommentChild::VerbatimLineCommand(raw.text.clone())
    }
}

/// Returns, in order, the comment children that the nodes `raws` describe.
pub fn children_from_raw(raws: &Vec<RawComment>) -> (children: Vec<CommentChild>)
    requires
        all_well_formed(raws@),
    ensures
        describes_all(raws@, children@),
    decreases *raws, 1nat,
{
    let mut children: Vec<CommentChild> = Vec::new();
    let mut i: usize = 0;
    assert(raws@.take(0) =~= Seq::<RawComment>::empty());
    while i < raws.len()
        invariant
            i <= raws.len(),
            all_well_formed(raws@),
            describes_all(raws@.take(i as int), children@),
        decreases raws.len() - i,
    {
        proof {
            lemma_all_well_formed(raws@, i as int);
        }
        let child = child_from_raw(&raws[i]);
        let ghost before = children@;
        children.push(child);
        assert(raws@.take(i + 1).drop_last() =~= raws@.take(i as int));
        assert(children@.drop_last() =~= before);
        i = i + 1;
    }
    assert(raws@.take(raws.len() as int) =~= raws@);
    children
}


//================================================
// Copies
//================================================

/// Returns a copy of the comment child `c`.
fn copy_child(c: &CommentChild) -> (copy: CommentChild)
    decreases *c, 0nat,
{
    match c {
        CommentChild::BlockCommand(b) => CommentChild::BlockCommand(BlockCommand {
            command: b.command.clone(),
            arguments: copy_strings(&b.arguments),
            children: copy_children(&b.children),
        }),
        CommentChild::HtmlStartTag(t) => CommentChild::HtmlStartTag(HtmlStartTag {
            name: t.name.clone(),
            attributes: copy_attributes(&t.attributes),
            closing: t.closing,
        }),
        CommentChild::HtmlEndTag(n) => CommentChild::HtmlEndTag(n.clone()),
        CommentChild::InlineCommand(i) => CommentChild::InlineCommand(InlineCommand {
            command: i.command.clone(),
            arguments: copy_strings(&i.arguments),
            style: i.style,
        }),
        CommentChild::Paragraph(cs) => CommentChild::Paragraph(copy_children(cs)),
        CommentChild::ParamCommand(p) => CommentChild::ParamCommand(ParamCommand {
            index: p.index,
            parameter: p.parameter.clone(),
            direction: p.direction,
            children: copy_children(&p.children),
        }),
        CommentChild::TParamCommand(t) => CommentChild::TParamCommand(TParamCommand {
            position: t.position,
            parameter: t.parameter.clone(),
            children: copy_children(&t.children),
        }),
        CommentChild::Text(t) => CommentChild::Text(t.clone()),
        CommentChild::VerbatimCommand(lines) => CommentChild::VerbatimCommand(copy_strings(lines)),
        CommentChild::VerbatimLineCommand(l) => CommentChild::VerbatimLineCommand(l.clone()),
    }
}

/// Returns a copy of the comment children `cs`.
fn copy_children(cs: &Vec<CommentChild>) -> (copy: Vec<CommentChild>)
    decreases *cs, 1nat,
{
    let mut copy: Vec<CommentChild> = Vec::new();
    let mut i: usize = 0;
    while i < cs.len()
        decreases cs.len() - i,
    {
        copy.push(copy_child(&cs[i]));
        i = i + 1;
    }
    copy
}

impl Clone for CommentChild {
    fn clone(&self) -> Self {
        copy_child(self)
    }
}

impl Clone for BlockCommand {
    fn clone(&self) -> Self {
        BlockCommand {
            command: self.command.clone(),
            arguments: copy_strings(&self.arguments),
            children: copy_children(&self.children),
        }
    }
}

impl Clone for HtmlStartTag {
    fn clone(&self) -> Self {
        HtmlStartTag {
            name: self.name.clone(),
            attributes: copy_attributes(&self.attributes),
            closing: self.closing,
        }
    }
}

impl Clone for InlineCommand {
    fn clone(&self) -> Self {
        InlineCommand {
            command: self.command.clone(),
            arguments: copy_strings(&self.arguments),
            style: self.style,
        }
    }
}

impl Clone for ParamCommand {
    fn clone(&self) -> Self {
        ParamCommand {
            index: self.index,
            parameter: self.parameter.clone(),
            direction: self.direction,
            children: copy_children(&self.children),
        }
    }
}

impl Clone for TParamCommand {
    fn clone(&self) -> Self {
        TParamCommand {
            position: self.position,
            parameter: self.parameter.clone(),
            children: copy_children(&self.children),
        }
    }
}


impl ParameterDirection {
    /// Each variant stands for libclang's value of the same name: the values libclang's C
    /// interface gives them.
    pub proof fn lemma_libclang_values()
        ensures
            ParameterDirection::In.code() == 0,
            ParameterDirection::Out.code() == 1,
            ParameterDirection::InOut.code() == 2,
    {
    }
}

impl InlineCommandStyle {
    /// Each variant stands for libclang's value of the same name: the values libclang's C
    /// interface gives them.
    pub proof fn lemma_libclang_values()
        ensures
            InlineCommandStyle::Bold.code() == 1,
            InlineCommandStyle::Monospace.code() == 2,
            InlineCommandStyle::Emphasized.code() == 3,
    {
    }
}

} // verus!
