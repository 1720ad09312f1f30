//! Finding C declarations.
//!
//! The finders read a few facts about each AST entity (its kind, its name, and for typedefs what
//! their underlying types are) and return, in order, the declarations found among the entities.
//! A declaration that is encountered multiple times is included once, at its first instance.

use vstd::prelude::*;

use crate::error::SizeofError;
use crate::kind::EntityKind;
use crate::literal::{integer_literal, integer_literal_value};
use crate::types;
use crate::utility::{chars_eq, chars_of, has_prefix, starts_with};

verus! {

/// The facts about the declaration of a typedef's underlying type that the finders read.
pub struct DeclarationFacts {
    /// The display name of the declaration, if any.
    pub display_name: Option<String>,
    /// The raw size libclang reports for the type of the declaration, if it has a type.
    pub size: Option<i64>,
}

/// The facts about a typedef's underlying type that the finders read.
pub struct TypeFacts {
    /// The raw libclang kind of the type.
    pub kind: i32,
    /// The display name of the type.
    pub display_name: String,
    /// Whether the type has a result type (i.e., whether it is a function type).
    pub has_result_type: bool,
    /// The declaration of the type, if any.
    pub declaration: Option<DeclarationFacts>,
}

/// The facts about an AST entity that the finders read.
pub struct EntityFacts {
    /// The categorization of the entity.
    pub kind: EntityKind,
    /// The name of the entity, if any.
    pub name: Option<String>,
    /// The display name of the entity, if any.
    pub display_name: Option<String>,
    /// Whether the entity has at least one child.
    pub has_children: bool,
    /// For a typedef: its underlying type.
    pub underlying_type: Option<TypeFacts>,
    /// For a typedef: the display name of the type it declares.
    pub type_display_name: Option<String>,
    /// For a preprocessor definition: whether it is a simple definition, i.e., one that consists
    /// only of a single integer or floating point literal, optionally negated.
    pub has_value: bool,
}

/// A declaration found among the supplied entities.
#[derive(Clone, Debug, PartialEq, Eq)]
pub struct Declaration {
    /// The name of the declaration.
    pub name: String,
    /// The position, among the supplied entities, of the entity the declaration was found at.
    pub entity: usize,
    /// Whether the declaration was found at a typedef of an enum, struct, or union: the entity
    /// that describes the declaration is then the declaration of the typedef's underlying type,
    /// and the typedef is the entity the declaration originated from.
    pub underlying: bool,
}

//================================================
// Specifications
//================================================

/// The name of an entity, as the finders read it.
pub open spec fn name_of(e: EntityFacts) -> Seq<char> {
    match e.name {
        Some(n) => n@,
        None => Seq::empty(),
    }
}

/// The keyword that starts the display name of an elaborated type of the supplied kind.
pub open spec fn keyword(target: EntityKind) -> Seq<char> {
    match target {
        EntityKind::EnumDecl => seq!['e', 'n', 'u', 'm', ' '],
        EntityKind::StructDecl => seq!['s', 't', 'r', 'u', 'c', 't', ' '],
        _ => seq!['u', 'n', 'i', 'o', 'n', ' '],
    }
}

/// Whether the finders take `target` to be the kind of an enum, struct, or union declaration.
pub open spec fn is_tag(target: EntityKind) -> bool {
    target == EntityKind::EnumDecl || target == EntityKind::StructDecl || target
        == EntityKind::UnionDecl
}

/// Whether a type is elaborated (e.g., `struct S` rather than `S`).
pub open spec fn elaborated(t: TypeFacts) -> bool {
    match types::elaborated_kind(t.kind as int) {
        Some(e) => e,
        None => t.kind == 1,
    }
}

/// Whether a type is an elaborated type whose display name starts with `prefix`.
pub open spec fn is_elaborated_with(t: TypeFacts, prefix: Seq<char>) -> bool {
    elaborated(t) && has_prefix(t.display_name@, prefix)
}

/// Whether a type's display name is an enum, struct, or union keyword followed by something
/// other than `name`.
pub open spec fn is_alias(t: TypeFacts, name: Seq<char>) -> bool {
    let d = t.display_name@;
    ||| has_prefix(d, keyword(EntityKind::EnumDecl)) && d.skip(5) != name
    ||| has_prefix(d, keyword(EntityKind::StructDecl)) && d.skip(7) != name
    ||| has_prefix(d, keyword(EntityKind::UnionDecl)) && d.skip(6) != name
}

/// Whether a typedef entity is reported by `find_typedefs`: its underlying type is not
/// elaborated, is a function type, or names a tag other than the typedef's type.
pub open spec fn is_plain_typedef(e: EntityFacts) -> bool {
    let u = e.underlying_type.unwrap();
    let display = e.type_display_name.unwrap()@;
    !elaborated(u) || u.has_result_type || is_alias(u, display)
}

/// Whether a typedef entity names an enum, struct, or union of the kind `target`.
pub open spec fn is_tag_typedef(e: EntityFacts, target: EntityKind) -> bool {
    e.kind == EntityKind::TypedefDecl && is_elaborated_with(
        e.underlying_type.unwrap(),
        keyword(target),
    )
}

/// Whether `e` is a declaration of the kind `target`, complete or not.
pub open spec fn candidate(target: EntityKind, e: EntityFacts) -> bool {
    if target == EntityKind::MacroDefinition {
        e.kind == EntityKind::MacroDefinition && e.has_value
    } else if target == EntityKind::TypedefDecl {
        e.kind == EntityKind::TypedefDecl && is_plain_typedef(e)
    } else if is_tag(target) {
        (e.kind == target && e.name is Some) || is_tag_typedef(e, target)
    } else {
        e.kind == target
    }
}

/// Whether the search for declarations of the kind `target` takes note of the name of `e`:
/// a later entity with the same name is then never reported. An enum, struct, or union
/// declaration is taken note of only when it is complete enough to be reported, so that a
/// forward declaration does not hide the definition that follows it.
pub open spec fn marks(target: EntityKind, e: EntityFacts) -> bool {
    candidate(target, e) && (is_tag(target) ==> emits(target, e))
}

/// Whether a declaration of an enum, struct, or union is complete enough to be reported: a
/// declaration with a body, or a typedef of a sized tag type that is anonymous or has the
/// typedef's display name.
pub open spec fn emits(target: EntityKind, e: EntityFacts) -> bool {
    if is_tag(target) && e.kind == EntityKind::TypedefDecl {
        let d = e.underlying_type.unwrap().declaration.unwrap();
        let complete = match d.size {
            Some(size) => SizeofError::error_of(size as int) is None,
            None => false,
        };
        complete && (d.display_name is None || same_name(e.display_name, d.display_name))
    } else if is_tag(target) {
        e.has_children
    } else {
        true
    }
}

/// Whether two optional names are the same.
pub open spec fn same_name(a: Option<String>, b: Option<String>) -> bool {
    match (a, b) {
        (Some(x), Some(y)) => x@ == y@,
        (None, None) => true,
        _ => false,
    }
}

/// Whether no entity before the one at `i` whose name was taken note of has its name.
pub open spec fn is_first(target: EntityKind, es: Seq<EntityFacts>, i: int) -> bool {
    forall|j: int| 0 <= j < i && marks(target, #[trigger] es[j]) ==> name_of(es[j]) != name_of(es[i])
}

/// Whether the entity at `i` is reported by the search for declarations of the kind `target`.
pub open spec fn found(target: EntityKind, es: Seq<EntityFacts>, i: int) -> bool {
    marks(target, es[i]) && is_first(target, es, i) && emits(target, es[i])
}

/// Whether `result` lists, in order, exactly the declarations of the kind `target` found among
/// `es`.
pub open spec fn is_search_result(
    target: EntityKind,
    es: Seq<EntityFacts>,
    result: Seq<Declaration>,
) -> bool {
    &&& forall|k: int|
        0 <= k < result.len() ==> {
            let d = #[trigger] result[k];
            &&& d.entity < es.len()
            &&& found(target, es, d.entity as int)
            &&& d.name@ == name_of(es[d.entity as int])
            &&& d.underlying == (is_tag(target) && es[d.entity as int].kind
                == EntityKind::TypedefDecl)
        }
    &&& forall|k1: int, k2: int|
        0 <= k1 < k2 < result.len() ==> result[k1].entity < result[k2].entity
    &&& forall|i: int|
        0 <= i < es.len() && found(target, es, i) ==> exists|k: int|
            0 <= k < result.len() && (#[trigger] result[k]).entity == i
}

/// What the search for declarations of the kind `target` reads of each entity, and which the
/// entity must therefore have.
pub open spec fn well_formed(target: EntityKind, es: Seq<EntityFacts>) -> bool {
    forall|i: int|
        0 <= i < es.len() ==> {
            let e = #[trigger] es[i];
            &&& (e.kind == target && !is_tag(target)) ==> e.name is Some
            &&& (e.kind == EntityKind::TypedefDecl && (target == EntityKind::TypedefDecl
                || is_tag(target))) ==> e.name is Some && e.underlying_type is Some
            &&& (e.kind == EntityKind::TypedefDecl && target == EntityKind::TypedefDecl)
                ==> e.type_display_name is Some
            &&& (is_tag(target) && is_tag_typedef(e, target))
                ==> e.underlying_type.unwrap().declaration is Some
        }
}

//================================================
// Laws
//================================================

/// Each declaration is reported at most once: no two reported entities share a name.
pub proof fn lemma_first_instance_only(target: EntityKind, es: Seq<EntityFacts>, i: int, j: int)
    requires
        0 <= i < j < es.len(),
        found(target, es, i),
        found(target, es, j),
    ensures
        name_of(es[i]) != name_of(es[j]),
{
    assert(marks(target, es[i]));
}

/// The names of the declarations a search returns are pairwise distinct.
pub proof fn lemma_distinct_names(
    target: EntityKind,
    es: Seq<EntityFacts>,
    result: Seq<Declaration>,
    k1: int,
    k2: int,
)
    requires
        is_search_result(target, es, result),
        0 <= k1 < k2 < result.len(),
    ensures
        result[k1].name@ != result[k2].name@,
{
    let d1 = result[k1];
    let d2 = result[k2];
    lemma_first_instance_only(target, es, d1.entity as int, d2.entity as int);
}

/// Every declaration that the search takes note of has its name reported: a declaration met
/// several times is reported once, at its first complete instance.
pub proof fn lemma_noted_names_reported(
    target: EntityKind,
    es: Seq<EntityFacts>,
    result: Seq<Declaration>,
    i: int,
)
    requires
        is_search_result(target, es, result),
        0 <= i < es.len(),
        marks(target, es[i]),
    ensures
        exists|k: int| 0 <= k < result.len() && (#[trigger] result[k]).name@ == name_of(es[i]),
    decreases i,
{
    if is_first(target, es, i) {
        assert(found(target, es, i));
        let k = choose|k: int| 0 <= k < result.len() && (#[trigger] result[k]).entity == i;
        assert(result[k].name@ == name_of(es[i]));
    } else {
        let j = choose|j: int|
            0 <= j < i && marks(target, #[trigger] es[j]) && name_of(es[j]) == name_of(es[i]);
        lemma_noted_names_reported(target, es, result, j);
    }
}

/// A typedef whose underlying type is an elaborated `enum`, `struct`, or `union` type naming a
/// tag other than the typedef's own type is one that `find_typedefs` reports (when it is the
/// first of its name).
pub proof fn lemma_tag_alias_typedef(e: EntityFacts, prefix: Seq<char>, tag: Seq<char>)
    requires
        e.underlying_type is Some,
        e.type_display_name is Some,
        prefix == seq!['e', 'n', 'u', 'm', ' '] || prefix == seq!['s', 't', 'r', 'u', 'c', 't', ' ']
            || prefix == seq!['u', 'n', 'i', 'o', 'n', ' '],
        e.underlying_type.unwrap().display_name@ == prefix + tag,
        tag != e.type_display_name.unwrap()@,
    ensures
        is_plain_typedef(e),
{
    let d = e.underlying_type.unwrap().display_name@;
    assert(d.take(prefix.len() as int) =~= prefix);
    assert(d.skip(prefix.len() as int) =~= tag);
    if prefix == seq!['e', 'n', 'u', 'm', ' '] {
        assert(has_prefix(d, keyword(EntityKind::EnumDecl)));
    } else if prefix == seq!['s', 't', 'r', 'u', 'c', 't', ' '] {
        assert(has_prefix(d, keyword(EntityKind::StructDecl)));
    } else {
        assert(has_prefix(d, keyword(EntityKind::UnionDecl)));
    }
}

/// A typedef whose underlying type is elaborated is a typedef of an enum, a struct, or a union
/// exactly as the underlying type's display name starts with `enum `, `struct `, or `union `.
pub proof fn lemma_tag_typedef_kinds(e: EntityFacts)
    requires
        e.kind == EntityKind::TypedefDecl,
        e.underlying_type is Some,
        elaborated(e.underlying_type.unwrap()),
    ensures
        is_tag_typedef(e, EntityKind::EnumDecl) <==> has_prefix(
            e.underlying_type.unwrap().display_name@,
            seq!['e', 'n', 'u', 'm', ' '],
        ),
        is_tag_typedef(e, EntityKind::StructDecl) <==> has_prefix(
            e.underlying_type.unwrap().display_name@,
            seq!['s', 't', 'r', 'u', 'c', 't', ' '],
        ),
        is_tag_typedef(e, EntityKind::UnionDecl) <==> has_prefix(
            e.underlying_type.unwrap().display_name@,
            seq!['u', 'n', 'i', 'o', 'n', ' '],
        ),
{
    assert(keyword(EntityKind::EnumDecl) =~= seq!['e', 'n', 'u', 'm', ' ']);
    assert(keyword(EntityKind::StructDecl) =~= seq!['s', 't', 'r', 'u', 'c', 't', ' ']);
    assert(keyword(EntityKind::UnionDecl) =~= seq!['u', 'n', 'i', 'o', 'n', ' ']);
}

//================================================
// Searches
//================================================

/// Returns the characters of the keyword of the tag kind `target`.
fn keyword_chars(target: EntityKind) -> (chars: Vec<char>)
    ensures
        chars@ == keyword(target),
{
    match target {
        EntityKind::EnumDecl => vec!['e', 'n', 'u', 'm', ' '],
        EntityKind::StructDecl => vec!['s', 't', 'r', 'u', 'c', 't', ' '],
        _ => vec!['u', 'n', 'i', 'o', 'n', ' '],
    }
}

/// Returns whether `target` is the kind of an enum, struct, or union declaration.
fn is_tag_kind(target: EntityKind) -> (result: bool)
    ensures
        result == is_tag(target),
{
    target == EntityKind::EnumDecl || target == EntityKind::StructDecl || target
        == EntityKind::UnionDecl
}

/// Returns whether a type is elaborated.
fn is_elaborated_type(t: &TypeFacts) -> (result: bool)
    ensures
        result == elaborated(*t),
{
    match types::is_elaborated(t.kind) {
        Some(e) => e,
        None => t.kind == 1,
    }
}

/// Returns the characters of `v` after the first `n`.
fn skip_chars(v: &Vec<char>, n: usize) -> (rest: Vec<char>)
    requires
        n <= v.len(),
    ensures
        rest@ == v@.skip(n as int),
{
    let mut rest: Vec<char> = Vec::new();
    let mut i: usize = n;
    while i < v.len()
        invariant
            n <= i <= v.len(),
            rest@ == v@.subrange(n as int, i as int),
        decreases v.len() - i,
    {
        rest.push(v[i]);
        i = i + 1;
    }
    rest
}

/// Returns whether `display` starts with `keyword` followed by something other than `name`.
fn names_other_than(display: &Vec<char>, keyword: &Vec<char>, name: &Vec<char>) -> (result: bool)
    ensures
        result == (has_prefix(display@, keyword@) && display@.skip(keyword@.len() as int)
            != name@),
{
    if starts_with(display, keyword) {
        let rest = skip_chars(display, keyword.len());
        !chars_eq(&rest, name)
    } else {
        false
    }
}

/// Returns whether a type's display name is an enum, struct, or union keyword followed by
/// something other than `name`.
fn is_alias_exec(t: &TypeFacts, name: &String) -> (result: bool)
    ensures
        result == is_alias(*t, name@),
{
    let display = chars_of(t.display_name.as_str());
    let name = chars_of(name.as_str());
    names_other_than(&display, &keyword_chars(EntityKind::EnumDecl), &name)
        || names_other_than(&display, &keyword_chars(EntityKind::StructDecl), &name)
        || names_other_than(&display, &keyword_chars(EntityKind::UnionDecl), &name)
}

/// Returns whether a typedef entity is one that `find_typedefs` reports.
fn is_plain_typedef_exec(e: &EntityFacts) -> (result: bool)
    requires
        e.underlying_type is Some,
        e.type_display_name is Some,
    ensures
        result == is_plain_typedef(*e),
{
    let u = e.underlying_type.as_ref().unwrap();
    let display = e.type_display_name.as_ref().unwrap();
    !is_elaborated_type(u) || u.has_result_type || is_alias_exec(u, display)
}

/// Returns whether a typedef entity names an enum, struct, or union of the kind `target` (the
/// entities whose underlying type's declaration the search for that kind reads).
pub fn is_tag_typedef_of(e: &EntityFacts, target: EntityKind) -> (result: bool)
    requires
        e.kind == EntityKind::TypedefDecl ==> e.underlying_type is Some,
    ensures
        result == is_tag_typedef(*e, target),
{
    if e.kind != EntityKind::TypedefDecl {
        return false;
    }
    let u = e.underlying_type.as_ref().unwrap();
    is_elaborated_type(u) && starts_with(&chars_of(u.display_name.as_str()), &keyword_chars(target))
}

/// Whether the search for declarations of the kind `target` has what it reads of `e`.
spec fn readable(target: EntityKind, e: EntityFacts) -> bool {
    &&& (e.kind == target && !is_tag(target)) ==> e.name is Some
    &&& (e.kind == EntityKind::TypedefDecl && (target == EntityKind::TypedefDecl || is_tag(
        target,
    ))) ==> e.name is Some && e.underlying_type is Some
    &&& (e.kind == EntityKind::TypedefDecl && target == EntityKind::TypedefDecl)
        ==> e.type_display_name is Some
    &&& (is_tag(target) && is_tag_typedef(e, target))
        ==> e.underlying_type.unwrap().declaration is Some
}

/// Returns whether `e` is a declaration of the kind `target`, complete or not.
fn candidate_exec(target: EntityKind, e: &EntityFacts) -> (result: bool)
    requires
        readable(target, *e),
    ensures
        result == candidate(target, *e),
        result ==> e.name is Some,
{
    if target == EntityKind::MacroDefinition {
        e.kind == EntityKind::MacroDefinition && e.has_value
    } else if target == EntityKind::TypedefDecl {
        e.kind == EntityKind::TypedefDecl && is_plain_typedef_exec(e)
    } else if is_tag_kind(target) {
        (e.kind == target && e.name.is_some()) || is_tag_typedef_of(e, target)
    } else {
        e.kind == target
    }
}

/// Returns whether two optional strings are equal.
fn option_string_eq(a: &Option<String>, b: &Option<String>) -> (result: bool)
    ensures
        result == same_name(*a, *b),
{
    match (a, b) {
        (Some(x), Some(y)) => x.eq(y),
        (None, None) => true,
        _ => false,
    }
}

/// Returns whether a declaration of the kind `target` is complete enough to be reported.
fn emits_exec(target: EntityKind, e: &EntityFacts) -> (result: bool)
    requires
        readable(target, *e),
        candidate(target, *e),
    ensures
        result == emits(target, *e),
{
    if is_tag_kind(target) && e.kind == EntityKind::TypedefDecl {
        let d = e.underlying_type.as_ref().unwrap().declaration.as_ref().unwrap();
        let complete = match d.size {
            Some(size) => SizeofError::from_error(size).is_ok(),
            None => false,
        };
        complete && (d.display_name.is_none() || option_string_eq(&e.display_name, &d.display_name))
    } else if is_tag_kind(target) {
        e.has_children
    } else {
        true
    }
}

/// Returns whether one of the names in `seen` is `name`.
fn seen_contains(seen: &Vec<String>, name: &String) -> (result: bool)
    ensures
        result == exists|k: int| 0 <= k < seen.len() && (#[trigger] seen@[k])@ == name@,
{
    let mut k: usize = 0;
    while k < seen.len()
        invariant
            k <= seen.len(),
            forall|l: int| 0 <= l < k ==> (#[trigger] seen@[l])@ != name@,
        decreases seen.len() - k,
    {
        if seen[k] == *name {
            return true;
        }
        k = k + 1;
    }
    false
}

/// Whether `seen` holds exactly the names noted among the first `i` entities, the name at `k`
/// being that of the entity at `origins[k]`.
spec fn seen_names(
    target: EntityKind,
    es: Seq<EntityFacts>,
    i: int,
    seen: Seq<String>,
    origins: Seq<int>,
) -> bool {
    &&& origins.len() == seen.len()
    &&& forall|k: int|
        0 <= k < seen.len() ==> {
            &&& 0 <= #[trigger] origins[k] < i
            &&& marks(target, es[origins[k]])
            &&& name_of(es[origins[k]]) == seen[k]@
        }
    &&& forall|j: int|
        0 <= j < i && marks(target, #[trigger] es[j]) ==> exists|k: int|
            0 <= k < seen.len() && (#[trigger] seen[k])@ == name_of(es[j])
}

/// Whether `result` lists, in order, exactly the declarations found among the first `i`
/// entities.
spec fn found_so_far(target: EntityKind, es: Seq<EntityFacts>, i: int, result: Seq<Declaration>) -> bool {
    &&& forall|k: int|
        0 <= k < result.len() ==> {
            let d = #[trigger] result[k];
            &&& d.entity < i
            &&& found(target, es, d.entity as int)
            &&& d.name@ == name_of(es[d.entity as int])
            &&& d.underlying == (is_tag(target) && es[d.entity as int].kind
                == EntityKind::TypedefDecl)
        }
    &&& forall|k1: int, k2: int|
        0 <= k1 < k2 < result.len() ==> result[k1].entity < result[k2].entity
    &&& forall|j: int|
        0 <= j < i && found(target, es, j) ==> exists|k: int|
            0 <= k < result.len() && (#[trigger] result[k]).entity == j
}

proof fn lemma_seen_first(
    target: EntityKind,
    es: Seq<EntityFacts>,
    i: int,
    seen: Seq<String>,
    origins: Seq<int>,
    name: Seq<char>,
)
    requires
        0 <= i < es.len(),
        seen_names(target, es, i, seen, origins),
        name_of(es[i]) == name,
    ensures
        is_first(target, es, i) <==> !exists|k: int| 0 <= k < seen.len() && (#[trigger] seen[k])@ == name,
{
    if exists|k: int| 0 <= k < seen.len() && (#[trigger] seen[k])@ == name {
        let k = choose|k: int| 0 <= k < seen.len() && (#[trigger] seen[k])@ == name;
        let j = origins[k];
        assert(marks(target, es[j]));
        assert(!is_first(target, es, i));
    } else {
        assert forall|j: int| 0 <= j < i && marks(target, #[trigger] es[j]) implies name_of(es[j])
            != name_of(es[i]) by {
            let k = choose|k: int| 0 <= k < seen.len() && (#[trigger] seen[k])@ == name_of(es[j]);
        }
    }
}

proof fn lemma_seen_push(
    target: EntityKind,
    es: Seq<EntityFacts>,
    i: int,
    seen: Seq<String>,
    origins: Seq<int>,
    name: String,
)
    requires
        0 <= i < es.len(),
        seen_names(target, es, i, seen, origins),
        marks(target, es[i]),
        name_of(es[i]) == name@,
    ensures
        seen_names(target, es, i + 1, seen.push(name), origins.push(i)),
{
    let new_seen = seen.push(name);
    let new_origins = origins.push(i);
    assert forall|k: int| 0 <= k < new_seen.len() implies {
        &&& 0 <= #[trigger] new_origins[k] < i + 1
        &&& marks(target, es[new_origins[k]])
        &&& name_of(es[new_origins[k]]) == new_seen[k]@
    } by {
        if k < seen.len() {
            assert(new_seen[k] == seen[k]);
            assert(new_origins[k] == origins[k]);
        }
    }
    assert forall|j: int| 0 <= j < i + 1 && marks(target, #[trigger] es[j]) implies exists|k: int|
        0 <= k < new_seen.len() && (#[trigger] new_seen[k])@ == name_of(es[j]) by {
        if j < i {
            let k = choose|k: int| 0 <= k < seen.len() && (#[trigger] seen[k])@ == name_of(es[j]);
            assert(new_seen[k] == seen[k]);
        } else {
            assert(new_seen[seen.len() as int]@ == name_of(es[j]));
        }
    }
}

proof fn lemma_seen_keep(
    target: EntityKind,
    es: Seq<EntityFacts>,
    i: int,
    seen: Seq<String>,
    origins: Seq<int>,
)
    requires
        0 <= i < es.len(),
        seen_names(target, es, i, seen, origins),
        marks(target, es[i]) ==> exists|k: int| 0 <= k < seen.len() && (#[trigger] seen[k])@ == name_of(es[i]),
    ensures
        seen_names(target, es, i + 1, seen, origins),
{
    assert forall|j: int| 0 <= j < i + 1 && marks(target, #[trigger] es[j]) implies exists|k: int|
        0 <= k < seen.len() && (#[trigger] seen[k])@ == name_of(es[j]) by {
        if j == i {
            let k = choose|k: int| 0 <= k < seen.len() && (#[trigger] seen[k])@ == name_of(es[i]);
        }
    }
}

proof fn lemma_result_skip(
    target: EntityKind,
    es: Seq<EntityFacts>,
    i: int,
    result: Seq<Declaration>,
)
    requires
        0 <= i < es.len(),
        found_so_far(target, es, i, result),
        !found(target, es, i),
    ensures
        found_so_far(target, es, i + 1, result),
{
}

proof fn lemma_result_push(
    target: EntityKind,
    es: Seq<EntityFacts>,
    i: int,
    result: Seq<Declaration>,
    d: Declaration,
)
    requires
        0 <= i < es.len(),
        found_so_far(target, es, i, result),
        found(target, es, i),
        d.entity == i,
        d.name@ == name_of(es[i]),
        d.underlying == (is_tag(target) && es[i].kind == EntityKind::TypedefDecl),
    ensures
        found_so_far(target, es, i + 1, result.push(d)),
{
    let r = result.push(d);
    assert(r[result.len() as int] == d);
    assert forall|j: int| 0 <= j < i + 1 && found(target, es, j) implies exists|k: int|
        0 <= k < r.len() && (#[trigger] r[k]).entity == j by {
        if j < i {
            let k = choose|k: int| 0 <= k < result.len() && (#[trigger] result[k]).entity == j;
            assert(r[k] == result[k]);
        }
    }
}

/// Returns, in order, the declarations of the kind `target` found among `entities`.
fn search(target: EntityKind, entities: &Vec<EntityFacts>) -> (result: Vec<Declaration>)
    requires
        well_formed(target, entities@),
    ensures
        is_search_result(target, entities@, result@),
{
    let ghost es = entities@;
    let mut seen: Vec<String> = Vec::new();
    let ghost mut origins: Seq<int> = Seq::empty();
    let mut result: Vec<Declaration> = Vec::new();
    let mut i: usize = 0;
    while i < entities.len()
        invariant
            es == entities@,
            well_formed(target, es),
            i <= es.len(),
            seen_names(target, es, i as int, seen@, origins),
            found_so_far(target, es, i as int, result@),
        decreases es.len() - i,
    {
        let e = &entities[i];
        assert(readable(target, *e));
        let mut emitted = false;
        let noted = candidate_exec(target, e) && (!is_tag_kind(target) || emits_exec(target, e));
        if noted {
            let name = e.name.as_ref().unwrap();
            let already = seen_contains(&seen, name);
            proof {
                lemma_seen_first(target, es, i as int, seen@, origins, name@);
            }
            if already {
                proof {
                    lemma_seen_keep(target, es, i as int, seen@, origins);
                }
            } else {
                let copy = name.clone();
                proof {
                    lemma_seen_push(target, es, i as int, seen@, origins, copy);
                    origins = origins.push(i as int);
                }
                seen.push(copy);
                let d = Declaration {
                    name: name.clone(),
                    entity: i,
                    underlying: is_tag_kind(target) && e.kind == EntityKind::TypedefDecl,
                };
                proof {
                    lemma_result_push(target, es, i as int, result@, d);
                }
                result.push(d);
                emitted = true;
            }
        } else {
            proof {
                lemma_seen_keep(target, es, i as int, seen@, origins);
            }
        }
        if !emitted {
            proof {
                lemma_result_skip(target, es, i as int, result@);
            }
        }
        i = i + 1;
    }
    result
}

//================================================
// Finders
//================================================

/// Returns the simple preprocessor definitions among the supplied entities, in order.
///
/// Simple preprocessor definitions are those that consist only of a single integer or floating
/// point literal, optionally negated (see `EntityFacts::has_value`).
///
/// If a preprocessor definition is encountered multiple times, only the first instance is
/// included.
pub fn find_definitions(entities: &Vec<EntityFacts>) -> (result: Vec<Declaration>)
    requires
        well_formed(EntityKind::MacroDefinition, entities@),
    ensures
        is_search_result(EntityKind::MacroDefinition, entities@, result@),
{
    search(EntityKind::MacroDefinition, entities)
}

/// The declarations of the pairs `pairs`.
pub open spec fn declarations_of<V>(pairs: Seq<(Declaration, V)>) -> Seq<Declaration> {
    Seq::new(pairs.len(), |i: int| pairs[i].0)
}

/// Returns the simple preprocessor definitions among the supplied entities, in order, each with
/// the value read for its entity (`values[i]` is the value of the entity at `i`, present exactly
/// for the simple definitions).
///
/// If a preprocessor definition is encountered multiple times, only the first instance is
/// included.
pub fn find_definitions_with_values<V: Copy>(
    entities: &Vec<EntityFacts>,
    values: &Vec<Option<V>>,
) -> (result: Vec<(Declaration, V)>)
    requires
        well_formed(EntityKind::MacroDefinition, entities@),
        values.len() == entities.len(),
        forall|i: int|
            0 <= i < values.len() ==> ((#[trigger] values@[i]) is Some <==> entities@[i].has_value),
    ensures
        is_search_result(EntityKind::MacroDefinition, entities@, declarations_of(result@)),
        forall|k: int|
            0 <= k < result.len() ==> values@[(#[trigger] result@[k]).0.entity as int] == Some(
                result@[k].1,
            ),
{
    let found = search(EntityKind::MacroDefinition, entities);
    let mut result: Vec<(Declaration, V)> = Vec::new();
    let mut k: usize = 0;
    while k < found.len()
        invariant
            k <= found.len(),
            is_search_result(EntityKind::MacroDefinition, entities@, found@),
            values.len() == entities.len(),
            forall|i: int|
                0 <= i < values.len() ==> ((#[trigger] values@[i]) is Some
                    <==> entities@[i].has_value),
            result.len() == k,
            forall|j: int| 0 <= j < k ==> (#[trigger] result@[j]).0 == found@[j],
            forall|j: int|
                0 <= j < result.len() ==> values@[(#[trigger] result@[j]).0.entity as int]
                    == Some(result@[j].1),
        decreases found.len() - k,
    {
        let d = Declaration {
            name: found[k].name.clone(),
            entity: found[k].entity,
            underlying: found[k].underlying,
        };
        assert(found@[k as int].entity < entities.len());
        assert(marks(EntityKind::MacroDefinition, entities@[found@[k as int].entity as int]));
        let value = values[d.entity].unwrap();
        result.push((d, value));
        k = k + 1;
    }
    assert(declarations_of(result@) =~= found@);
    result
}

/// Returns the enums among the supplied entities, in order.
///
/// If an enum is encountered multiple times, only the first instance is included.
pub fn find_enums(entities: &Vec<EntityFacts>) -> (result: Vec<Declaration>)
    requires
        well_formed(EntityKind::EnumDecl, entities@),
    ensures
        is_search_result(EntityKind::EnumDecl, entities@, result@),
{
    search(EntityKind::EnumDecl, entities)
}

/// Returns the functions among the supplied entities, in order.
///
/// If a function is encountered multiple times, only the first instance is included.
pub fn find_functions(entities: &Vec<EntityFacts>) -> (result: Vec<Declaration>)
    requires
        well_formed(EntityKind::FunctionDecl, entities@),
    ensures
        is_search_result(EntityKind::FunctionDecl, entities@, result@),
{
    search(EntityKind::FunctionDecl, entities)
}

/// Returns the structs among the supplied entities, in order.
///
/// If a struct is encountered multiple times, only the first instance is included.
pub fn find_structs(entities: &Vec<EntityFacts>) -> (result: Vec<Declaration>)
    requires
        well_formed(EntityKind::StructDecl, entities@),
    ensures
        is_search_result(EntityKind::StructDecl, entities@, result@),
{
    search(EntityKind::StructDecl, entities)
}

/// Returns the typedefs among the supplied entities, in order.
///
/// If a typedef is encountered multiple times, only the first instance is included.
pub fn find_typedefs(entities: &Vec<EntityFacts>) -> (result: Vec<Declaration>)
    requires
        well_formed(EntityKind::TypedefDecl, entities@),
    ensures
        is_search_result(EntityKind::TypedefDecl, entities@, result@),
{
    search(EntityKind::TypedefDecl, entities)
}

/// Returns the unions among the supplied entities, in order.
///
/// If a union is encountered multiple times, only the first instance is included.
pub fn find_unions(entities: &Vec<EntityFacts>) -> (result: Vec<Declaration>)
    requires
        well_formed(EntityKind::UnionDecl, entities@),
    ensures
        is_search_result(EntityKind::UnionDecl, entities@, result@),
{
    search(EntityKind::UnionDecl, entities)
}

//================================================
// Definition values
//================================================

/// The spellings of a sequence of tokens.
pub open spec fn spellings_of(tokens: Seq<String>) -> Seq<Seq<char>> {
    tokens.map_values(|t: String| t@)
}

/// The literal of a preprocessor definition whose tokens are spelled `spellings` (its name, then
/// its value, possibly followed by a stray `#`): whether it is negated, and the spelling of its
/// number, if the definition is a single, optionally negated, literal.
pub open spec fn literal(spellings: Seq<Seq<char>>) -> Option<(bool, Seq<char>)> {
    let t = if spellings.len() > 0 && spellings.last() == seq!['#'] {
        spellings.drop_last()
    } else {
        spellings
    };
    if t.len() == 2 {
        Some((false, t[1]))
    } else if t.len() == 3 && t[1] == seq!['-'] {
        Some((true, t[2]))
    } else {
        None
    }
}

/// A definition's literal is its one value token, negated when a `-` token comes before it; a
/// `#` token at the end is ignored, and a definition of any other shape has no literal.
pub proof fn lemma_definition_literals(
    name: Seq<char>,
    sign: Seq<char>,
    number: Seq<char>,
    tokens: Seq<Seq<char>>,
)
    requires
        number != seq!['#'],
    ensures
        literal(seq![name, number]) == Some((false, number)),
        literal(seq![name, seq!['-'], number]) == Some((true, number)),
        sign != seq!['-'] ==> literal(seq![name, sign, number]) is None,
        literal(seq![name, number, seq!['#']]) == Some((false, number)),
        tokens.len() > 0 && tokens.last() != seq!['#'] && (tokens.len() < 2 || tokens.len() > 3)
            ==> literal(tokens) is None,
{
    assert(seq![name, number, seq!['#']].drop_last() =~= seq![name, number]);
}

/// Returns the literal of a preprocessor definition whose tokens are spelled `spellings`:
/// whether it is negated, and the spelling of its number.
pub fn definition_literal(spellings: &Vec<String>) -> (result: Option<(bool, String)>)
    ensures
        match result {
            Some((negated, number)) => literal(spellings_of(spellings@)) == Some((negated, number@)),
            None => literal(spellings_of(spellings@)) is None,
        },
{
    let ghost all = spellings_of(spellings@);
    let mut len = spellings.len();
    let hash = vec!['#'];
    assert(hash@ =~= seq!['#']);
    if len > 0 {
        let last = chars_of(spellings[len - 1].as_str());
        assert(all.last() == spellings@[len - 1]@);
        if chars_eq(&last, &hash) {
            len = len - 1;
        }
    }
    let ghost t = if all.len() > 0 && all.last() == seq!['#'] {
        all.drop_last()
    } else {
        all
    };
    assert(t.len() == len);
    assert(forall|k: int| 0 <= k < len ==> t[k] == spellings@[k]@);
    if len == 2 {
        Some((false, spellings[1].clone()))
    } else if len == 3 {
        let minus = vec!['-'];
        assert(minus@ =~= seq!['-']);
        if chars_eq(&chars_of(spellings[1].as_str()), &minus) {
            Some((true, spellings[2].clone()))
        } else {
            None
        }
    } else {
        None
    }
}

/// Returns the integer value of a preprocessor definition whose tokens are spelled `spellings`:
/// whether it is negated, and its magnitude, if the definition is a single, optionally negated,
/// C integer literal (decimal, octal, hexadecimal, or binary, with or without a suffix) whose
/// value fits in a `u64`.
pub fn definition_integer(spellings: &Vec<String>) -> (result: Option<(bool, u64)>)
    ensures
        result == match literal(spellings_of(spellings@)) {
            Some((negated, number)) => match integer_literal(number) {
                Some(value) => Some((negated, value)),
                None => None,
            },
            None => None,
        },
{
    match definition_literal(spellings) {
        Some((negated, number)) => match integer_literal_value(number.as_str()) {
            Some(value) => Some((negated, value)),
            None => None,
        },
        None => None,
    }
}

} // verus!
