//! Lexical path arithmetic on `/`-separated paths.
//!
//! Nothing here touches the filesystem: paths are sequences of characters and
//! every function is a pure computation on them.

use vstd::prelude::*;
use vstd::string::*;

verus! {

/// A path is rooted when it starts at the filesystem root.
pub open spec fn is_rooted(path: Seq<char>) -> bool {
    path.len() > 0 && path[0] == '/'
}

/// The single-character piece that names the directory itself.
pub open spec fn dot() -> Seq<char> {
    seq!['.']
}

/// The piece that names the parent directory.
pub open spec fn dotdot() -> Seq<char> {
    seq!['.', '.']
}

/// `rel` adjoined to `base`: a rooted `rel` replaces `base`, otherwise the two
/// are concatenated with exactly one separator between a non-empty `base` and
/// `rel`.
pub open spec fn spec_join(base: Seq<char>, rel: Seq<char>) -> Seq<char> {
    if is_rooted(rel) {
        rel
    } else if base.len() == 0 || base.last() == '/' {
        base + rel
    } else {
        base + seq!['/'] + rel
    }
}

/// The pieces of `path` between its separators, in order. A path with `n`
/// separators has `n + 1` pieces, some of which may be empty.
pub open spec fn pieces(path: Seq<char>) -> Seq<Seq<char>>
    decreases path.len(),
{
    if path.len() == 0 {
        seq![Seq::<char>::empty()]
    } else {
        let before = pieces(path.drop_last());
        if path.last() == '/' {
            before.push(Seq::<char>::empty())
        } else {
            before.drop_last().push(before.last().push(path.last()))
        }
    }
}

/// The effect of one more piece on the directory names kept so far: empty
/// pieces and `.` change nothing, `..` cancels the name before it, stays at
/// the root of a rooted path, and is kept at the front of a relative one.
pub open spec fn apply_piece(kept: Seq<Seq<char>>, piece: Seq<char>, rooted: bool) -> Seq<
    Seq<char>,
> {
    if piece.len() == 0 || piece == dot() {
        kept
    } else if piece == dotdot() {
        if kept.len() > 0 && kept.last() != dotdot() {
            kept.drop_last()
        } else if rooted {
            kept
        } else {
            kept.push(piece)
        }
    } else {
        kept.push(piece)
    }
}

/// The names that remain after every piece has been applied from left to right.
pub open spec fn resolve_pieces(all: Seq<Seq<char>>, rooted: bool) -> Seq<Seq<char>>
    decreases all.len(),
{
    if all.len() == 0 {
        Seq::<Seq<char>>::empty()
    } else {
        apply_piece(resolve_pieces(all.drop_last(), rooted), all.last(), rooted)
    }
}

/// The names written out with one separator between neighbours.
pub open spec fn join_pieces(names: Seq<Seq<char>>) -> Seq<char>
    decreases names.len(),
{
    if names.len() == 0 {
        Seq::<char>::empty()
    } else if names.len() == 1 {
        names[0]
    } else {
        join_pieces(names.drop_last()) + seq!['/'] + names.last()
    }
}

/// A path written from its root flag and its remaining names. A relative path
/// with no name left is the current directory, `.`.
pub open spec fn spec_render(rooted: bool, names: Seq<Seq<char>>) -> Seq<char> {
    if rooted {
        seq!['/'] + join_pieces(names)
    } else if names.len() == 0 {
        dot()
    } else {
        join_pieces(names)
    }
}

/// The shortest path that names the same place as `path` by lexical rules
/// alone: repeated separators, `.` pieces and trailing separators are dropped
/// and each `..` removes the name before it.
pub open spec fn spec_clean(path: Seq<char>) -> Seq<char> {
    spec_render(is_rooted(path), resolve_pieces(pieces(path), is_rooted(path)))
}

/// `path` with every backslash turned into a separator.
pub open spec fn spec_with_separators(path: Seq<char>) -> Seq<char> {
    Seq::new(
        path.len(),
        |i: int|
            if path[i] == '\\' {
                '/'
            } else {
                path[i]
            },
    )
}

/// The clean form of `rel` adjoined to `base`.
pub open spec fn spec_under(base: Seq<char>, rel: Seq<char>) -> Seq<char> {
    spec_clean(spec_join(base, rel))
}

/// The directory that holds `path`, or `None` when `path` is empty or names
/// the root.
pub open spec fn spec_parent(path: Seq<char>) -> Option<Seq<char>> {
    if path.len() == 0 || (is_rooted(path) && resolve_pieces(pieces(path), true).len() == 0) {
        None
    } else {
        Some(spec_under(path, dotdot()))
    }
}

proof fn lemma_pieces_nonempty(path: Seq<char>)
    ensures
        pieces(path).len() >= 1,
    decreases path.len(),
{
    if path.len() > 0 {
        lemma_pieces_nonempty(path.drop_last());
    }
}

/// Writes a path that uses backslashes between its pieces with separators
/// instead. Meant for systems on which a backslash cannot be part of a name.
pub fn with_separators(path: &str) -> (converted: String)
    ensures
        converted@ == spec_with_separators(path@),
{
    proof {
        reveal_strlit("/");
    }
    let total: usize = path.unicode_len();
    let mut converted = String::new();
    let mut at: usize = 0;
    while at < total
        invariant
            total == path@.len(),
            at <= total,
            "/"@ == seq!['/'],
            converted@ == spec_with_separators(path@.take(at as int)),
        decreases total - at,
    {
        if path.get_char(at) == '\\' {
            converted.append("/");
        } else {
            converted.append(path.substring_char(at, at + 1));
        }
        at += 1;
    }
    converted
}

/// Adjoins `rel` to `base`.
pub fn join(base: &str, rel: &str) -> (joined: String)
    ensures
        joined@ == spec_join(base@, rel@),
{
    let base_len: usize = base.unicode_len();
    let rel_len: usize = rel.unicode_len();
    if rel_len > 0 && rel.get_char(0) == '/' {
        return String::from_str(rel);
    }
    let mut joined = String::from_str(base);
    if base_len > 0 && base.get_char(base_len - 1) != '/' {
        proof {
            reveal_strlit("/");
        }
        joined.append("/");
    }
    joined.append(rel);
    joined
}

fn is_dotdot(piece: &str) -> (yes: bool)
    ensures
        yes == (piece@ == dotdot()),
{
    let len: usize = piece.unicode_len();
    if len == 2 && piece.get_char(0) == '.' && piece.get_char(1) == '.' {
        assert(piece@ =~= dotdot());
        true
    } else {
        false
    }
}

fn is_dot(piece: &str) -> (yes: bool)
    ensures
        yes == (piece@ == dot()),
{
    let len: usize = piece.unicode_len();
    if len == 1 && piece.get_char(0) == '.' {
        assert(piece@ =~= dot());
        true
    } else {
        false
    }
}

fn absorb(kept: &mut Vec<String>, piece: &str, rooted: bool)
    ensures
        final(kept).deep_view() == apply_piece(old(kept).deep_view(), piece@, rooted),
{
    let len: usize = piece.unicode_len();
    if len == 0 || is_dot(piece) {
        return ;
    }
    let depth: usize = kept.len();
    if is_dotdot(piece) {
        if depth > 0 && !is_dotdot(kept[depth - 1].as_str()) {
            kept.pop();
        } else if !rooted {
            kept.push(String::from_str(piece));
        }
    } else {
        kept.push(String::from_str(piece));
    }
}

fn render(rooted: bool, names: &Vec<String>) -> (out: String)
    ensures
        out@ == spec_render(rooted, names.deep_view()),
{
    proof {
        reveal_strlit("/");
        reveal_strlit(".");
    }
    let count: usize = names.len();
    if count == 0 {
        if rooted {
            return String::from_str("/");
        }
        return String::from_str(".");
    }
    let mut out = if rooted {
        String::from_str("/")
    } else {
        String::new()
    };
    let ghost prefix = out@;
    out.append(names[0].as_str());
    let mut k: usize = 1;
    while k < count
        invariant
            1 <= k <= count,
            count == names.len(),
            "/"@ == seq!['/'],
            out@ == prefix + join_pieces(names.deep_view().take(k as int)),
        decreases count - k,
    {
        out.append("/");
        out.append(names[k].as_str());
        assert(names.deep_view().take(k as int + 1).drop_last() =~= names.deep_view().take(
            k as int,
        ));
        k += 1;
    }
    assert(names.deep_view().take(count as int) =~= names.deep_view());
    out
}

fn names_of(path: &str) -> (found: (Vec<String>, bool))
    ensures
        found.1 == is_rooted(path@),
        found.0.deep_view() == resolve_pieces(pieces(path@), is_rooted(path@)),
{
    let ghost whole = path@;
    let total: usize = path.unicode_len();
    let rooted: bool = total > 0 && path.get_char(0) == '/';
    let mut kept: Vec<String> = Vec::new();
    let mut start: usize = 0;
    let mut at: usize = 0;
    while at < total
        invariant
            whole == path@,
            total == whole.len(),
            start <= at <= total,
            rooted == is_rooted(whole),
            pieces(whole.take(at as int)).len() >= 1,
            pieces(whole.take(at as int)).last() == whole.subrange(start as int, at as int),
            kept.deep_view() == resolve_pieces(pieces(whole.take(at as int)).drop_last(), rooted),
        decreases total - at,
    {
        let ghost seen = pieces(whole.take(at as int));
        let ghost next = whole.take(at as int + 1);
        proof {
            assert(next.drop_last() =~= whole.take(at as int));
            lemma_pieces_nonempty(next);
        }
        if path.get_char(at) == '/' {
            let piece = path.substring_char(start, at);
            absorb(&mut kept, piece, rooted);
            assert(pieces(next).drop_last() =~= seen);
            start = at + 1;
        } else {
            assert(pieces(next).drop_last() =~= seen.drop_last());
        }
        at += 1;
    }
    let piece = path.substring_char(start, total);
    absorb(&mut kept, piece, rooted);
    assert(whole.take(total as int) =~= whole);
    (kept, rooted)
}

/// Brings `path` to its clean form.
pub fn clean(path: &str) -> (cleaned: String)
    ensures
        cleaned@ == spec_clean(path@),
{
    let (kept, rooted) = names_of(path);
    render(rooted, &kept)
}

/// The clean form of `rel` adjoined to `base`.
pub fn under(base: &str, rel: &str) -> (path: String)
    ensures
        path@ == spec_under(base@, rel@),
{
    let joined = join(base, rel);
    clean(joined.as_str())
}

/// The directory that holds `path`, if `path` is neither empty nor the root.
pub fn parent(path: &str) -> (dir: Option<String>)
    ensures
        dir.deep_view() == spec_parent(path@),
{
    let (kept, rooted) = names_of(path);
    if path.unicode_len() == 0 || (rooted && kept.len() == 0) {
        None
    } else {
        proof {
            reveal_strlit("..");
            assert(".."@ =~= dotdot());
        }
        Some(under(path, ".."))
    }
}

/// Whether a piece holds no separator.
pub open spec fn no_separator(piece: Seq<char>) -> bool {
    forall|i: int| 0 <= i < piece.len() ==> piece[i] != '/'
}

/// Whether nothing is left to resolve in `names`: every name is non-empty,
/// holds no separator and is not `.`, and `..` stands only at the front of a
/// relative path, before every other name.
pub open spec fn is_resolved(names: Seq<Seq<char>>, rooted: bool) -> bool {
    forall|i: int|
        0 <= i < names.len() ==> {
            &&& (#[trigger] names[i]).len() > 0
            &&& no_separator(names[i])
            &&& names[i] != dot()
            &&& names[i] == dotdot() ==> !rooted && forall|j: int|
                0 <= j < i ==> names[j] == dotdot()
        }
}

proof fn lemma_pieces_hold_no_separator(path: Seq<char>)
    ensures
        forall|i: int| 0 <= i < pieces(path).len() ==> no_separator(#[trigger] pieces(path)[i]),
    decreases path.len(),
{
    if path.len() > 0 {
        lemma_pieces_hold_no_separator(path.drop_last());
        lemma_pieces_nonempty(path.drop_last());
    }
}

proof fn lemma_resolve_gives_resolved(all: Seq<Seq<char>>, rooted: bool)
    requires
        forall|i: int| 0 <= i < all.len() ==> no_separator(#[trigger] all[i]),
    ensures
        is_resolved(resolve_pieces(all, rooted), rooted),
    decreases all.len(),
{
    if all.len() > 0 {
        lemma_resolve_gives_resolved(all.drop_last(), rooted);
    }
}

proof fn lemma_resolved_is_fixed(names: Seq<Seq<char>>, rooted: bool)
    requires
        is_resolved(names, rooted),
    ensures
        resolve_pieces(names, rooted) == names,
    decreases names.len(),
{
    if names.len() > 0 {
        lemma_resolved_is_fixed(names.drop_last(), rooted);
    }
}

proof fn lemma_pieces_after_separator(front: Seq<char>, name: Seq<char>)
    requires
        no_separator(name),
    ensures
        pieces(front + seq!['/'] + name) == pieces(front).push(name),
    decreases name.len(),
{
    let whole = front + seq!['/'] + name;
    if name.len() == 0 {
        assert(whole.drop_last() =~= front);
        assert(name =~= Seq::<char>::empty());
    } else {
        let shorter = name.drop_last();
        lemma_pieces_after_separator(front, shorter);
        assert(whole.drop_last() =~= front + seq!['/'] + shorter);
        assert(shorter.push(name.last()) =~= name);
    }
}

proof fn lemma_pieces_of_name(name: Seq<char>)
    requires
        no_separator(name),
    ensures
        pieces(name) == seq![name],
    decreases name.len(),
{
    if name.len() == 0 {
        assert(name =~= Seq::<char>::empty());
    } else {
        let shorter = name.drop_last();
        lemma_pieces_of_name(shorter);
        assert(shorter.push(name.last()) =~= name);
    }
}

proof fn lemma_pieces_of_joined(front: Seq<char>, names: Seq<Seq<char>>)
    requires
        names.len() > 0,
        forall|i: int| 0 <= i < names.len() ==> no_separator(#[trigger] names[i]),
    ensures
        pieces(front + seq!['/'] + join_pieces(names)) == pieces(front) + names,
        pieces(join_pieces(names)) == names,
    decreases names.len(),
{
    if names.len() == 1 {
        lemma_pieces_after_separator(front, names[0]);
        lemma_pieces_of_name(names[0]);
    } else {
        let shorter = names.drop_last();
        let last = names.last();
        lemma_pieces_of_joined(front, shorter);
        let inner = join_pieces(shorter);
        lemma_pieces_after_separator(front + seq!['/'] + inner, last);
        lemma_pieces_after_separator(inner, last);
        assert(front + seq!['/'] + join_pieces(names) =~= (front + seq!['/'] + inner) + seq!['/']
            + last);
    }
}

proof fn lemma_leading_empty_piece(names: Seq<Seq<char>>, rooted: bool)
    ensures
        resolve_pieces(seq![Seq::<char>::empty()] + names, rooted) == resolve_pieces(names, rooted),
    decreases names.len(),
{
    let led = seq![Seq::<char>::empty()] + names;
    if names.len() == 0 {
        assert(resolve_pieces(led.drop_last(), rooted) == Seq::<Seq<char>>::empty());
    } else {
        lemma_leading_empty_piece(names.drop_last(), rooted);
        assert(led.drop_last() =~= seq![Seq::<char>::empty()] + names.drop_last());
    }
}

proof fn lemma_joined_starts_with_first_name(names: Seq<Seq<char>>)
    requires
        names.len() > 0,
        names[0].len() > 0,
    ensures
        join_pieces(names).len() > 0,
        join_pieces(names)[0] == names[0][0],
    decreases names.len(),
{
    if names.len() > 1 {
        lemma_joined_starts_with_first_name(names.drop_last());
    }
}

/// The names of a clean path leave nothing to resolve, and the clean path is
/// those names written out.
pub proof fn law_clean_is_resolved(path: Seq<char>)
    ensures
        is_resolved(resolve_pieces(pieces(path), is_rooted(path)), is_rooted(path)),
        spec_clean(path) == spec_render(
            is_rooted(path),
            resolve_pieces(pieces(path), is_rooted(path)),
        ),
{
    lemma_pieces_hold_no_separator(path);
    lemma_resolve_gives_resolved(pieces(path), is_rooted(path));
}

/// A clean path is never empty, and it is rooted exactly when the path it came
/// from is.
pub proof fn law_clean_keeps_rootedness(path: Seq<char>)
    ensures
        spec_clean(path).len() > 0,
        is_rooted(spec_clean(path)) == is_rooted(path),
{
    let rooted = is_rooted(path);
    let names = resolve_pieces(pieces(path), rooted);
    law_clean_is_resolved(path);
    if !rooted && names.len() > 0 {
        lemma_joined_starts_with_first_name(names);
    }
}

/// Cleaning a clean path changes nothing.
pub proof fn law_clean_is_idempotent(path: Seq<char>)
    ensures
        spec_clean(spec_clean(path)) == spec_clean(path),
{
    let rooted = is_rooted(path);
    let names = resolve_pieces(pieces(path), rooted);
    let cleaned = spec_clean(path);
    law_clean_is_resolved(path);
    law_clean_keeps_rootedness(path);
    lemma_resolved_is_fixed(names, rooted);
    if names.len() > 0 {
        lemma_pieces_of_joined(Seq::<char>::empty(), names);
        if rooted {
            lemma_leading_empty_piece(names, rooted);
        }
    } else if rooted {
        assert(pieces(cleaned.drop_last()) == seq![Seq::<char>::empty()]);
        reveal_with_fuel(resolve_pieces, 3);
    } else {
        lemma_pieces_of_name(dot());
        reveal_with_fuel(resolve_pieces, 2);
    }
}

} // verus!
