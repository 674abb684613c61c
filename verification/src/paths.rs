//! Paths as text, compared component by component.
use vstd::prelude::*;
use vstd::string::*;

use crate::text::{
    chars_of, join, optional_view, same_text, same_texts, stands_at, text_of, texts_view,
};

verus! {

/// The pieces of `s` between occurrences of `separator`.
pub open spec fn split_on(s: Seq<char>, separator: char) -> Seq<Seq<char>>
    decreases s.len(),
{
    if s.len() == 0 {
        seq![Seq::<char>::empty()]
    } else {
        let before = split_on(s.drop_last(), separator);
        if s.last() == separator {
            before.push(Seq::empty())
        } else {
            before.drop_last().push(before.last().push(s.last()))
        }
    }
}

/// Whether a piece of a path names something: an empty piece does not, and a
/// single dot only at the start of the path.
pub open spec fn names_component(piece: Seq<char>, first: bool) -> bool {
    piece.len() > 0 && (piece == "."@ ==> first)
}

/// The pieces that name something, in order.
pub open spec fn named_pieces(pieces: Seq<Seq<char>>) -> Seq<Seq<char>>
    decreases pieces.len(),
{
    if pieces.len() == 0 {
        Seq::empty()
    } else {
        let before = named_pieces(pieces.drop_last());
        if names_component(pieces.last(), pieces.len() == 1) {
            before.push(pieces.last())
        } else {
            before
        }
    }
}

/// The components of a path after its root.
pub open spec fn path_components(path: Seq<char>) -> Seq<Seq<char>> {
    named_pieces(split_on(path, '/'))
}

/// A path that starts with a slash starts at the root.
pub open spec fn path_is_absolute(path: Seq<char>) -> bool {
    path.len() > 0 && path[0] == '/'
}

/// Whether `path` starts with the root, if `root` does, and with all components
/// of `root`.
pub open spec fn path_within(path: Seq<char>, root: Seq<char>) -> bool {
    &&& path_is_absolute(root) ==> path_is_absolute(path)
    &&& path_is_absolute(path) && !path_is_absolute(root) ==> path_components(root).len() == 0
    &&& path_components(root).is_prefix_of(path_components(path))
}

proof fn lemma_split_nonempty(s: Seq<char>, separator: char)
    ensures
        split_on(s, separator).len() > 0,
    decreases s.len(),
{
    if s.len() > 0 {
        lemma_split_nonempty(s.drop_last(), separator);
    }
}

/// Splits a text at each `separator`.
pub fn split_text(s: &str, separator: char) -> (r: Vec<String>)
    ensures
        texts_view(r@) == split_on(s@, separator),
        r@.len() > 0,
{
    let chars = chars_of(s);
    let mut done: Vec<String> = Vec::new();
    let mut current = String::new();
    let mut i: usize = 0;
    assert(texts_view(done@).push(current@) =~= split_on(s@.take(0), separator));
    while i < chars.len()
        invariant
            chars@ == s@,
            i <= chars@.len(),
            texts_view(done@).push(current@) == split_on(s@.take(i as int), separator),
        decreases chars@.len() - i,
    {
        let c = chars[i];
        let ghost pieces = split_on(s@.take(i as int), separator);
        i += 1;
        assert(s@.take(i as int).drop_last() =~= s@.take(i - 1));
        assert(s@.take(i as int).last() == c);
        assert(pieces.last() == current@);
        assert(pieces.drop_last() =~= texts_view(done@));
        if c == separator {
            let ghost done_before = done@;
            done.push(current);
            current = String::new();
            assert(texts_view(done@) =~= pieces);
            assert(current@ =~= Seq::<char>::empty());
        } else {
            current.push(c);
        }
        assert(texts_view(done@).push(current@) =~= split_on(s@.take(i as int), separator));
    }
    let ghost last = current@;
    let ghost before = done@;
    done.push(current);
    assert(s@.take(s@.len() as int) =~= s@);
    assert(texts_view(done@) =~= texts_view(before).push(last));
    done
}

/// The components of a path, after its root.
pub fn components_of(path: &str) -> (r: Vec<String>)
    ensures
        texts_view(r@) == path_components(path@),
{
    let pieces = split_text(path, '/');
    let mut named: Vec<String> = Vec::new();
    let mut i: usize = 0;
    assert(texts_view(named@) =~= named_pieces(texts_view(pieces@).take(0)));
    while i < pieces.len()
        invariant
            i <= pieces@.len(),
            texts_view(named@) == named_pieces(texts_view(pieces@).take(i as int)),
        decreases pieces@.len() - i,
    {
        let piece = &pieces[i];
        let counts = !piece.as_str().is_empty() && (i == 0 || !same_text(piece.as_str(), "."));
        let ghost before = named@;
        let ghost taken = texts_view(pieces@).take(i + 1);
        assert(taken.drop_last() =~= texts_view(pieces@).take(i as int));
        assert(taken.last() == piece@);
        if counts {
            named.push(piece.clone());
            assert(texts_view(named@) =~= texts_view(before).push(piece@));
        }
        i += 1;
    }
    assert(texts_view(pieces@).take(pieces@.len() as int) =~= texts_view(pieces@));
    named
}

pub fn is_absolute(path: &str) -> (r: bool)
    ensures
        r == path_is_absolute(path@),
{
    !path.is_empty() && path.get_char(0) == '/'
}

/// Whether `path` lies at or under `root`.
pub fn is_within(path: &str, root: &str) -> (r: bool)
    ensures
        r == path_within(path@, root@),
{
    let path_parts = components_of(path);
    let root_parts = components_of(root);
    let path_absolute = is_absolute(path);
    let root_absolute = is_absolute(root);
    let ghost path_texts = texts_view(path_parts@);
    let ghost root_texts = texts_view(root_parts@);
    if root_absolute && !path_absolute {
        return false;
    }
    if path_absolute && !root_absolute && root_parts.len() > 0 {
        return false;
    }
    if root_parts.len() > path_parts.len() {
        return false;
    }
    let mut i: usize = 0;
    while i < root_parts.len()
        invariant
            i <= root_parts@.len() <= path_parts@.len(),
            path_texts == texts_view(path_parts@),
            root_texts == texts_view(root_parts@),
            root_texts == path_components(root@),
            path_texts == path_components(path@),
            forall|k: int| 0 <= k < i ==> root_texts[k] == path_texts[k],
        decreases root_parts@.len() - i,
    {
        if !same_text(root_parts[i].as_str(), path_parts[i].as_str()) {
            assert(root_texts[i as int] != path_texts[i as int]);
            return false;
        }
        i += 1;
    }
    true
}

/// `rest` behind `base`, with one slash between where `base` does not end with
/// one; an absolute `rest` stands alone.
pub open spec fn path_joined(base: Seq<char>, rest: Seq<char>) -> Seq<char> {
    if path_is_absolute(rest) {
        rest
    } else if base.len() == 0 || base.last() == '/' {
        base + rest
    } else {
        base.push('/') + rest
    }
}

/// `rest` behind `base`.
pub fn path_join(base: &str, rest: &str) -> (r: String)
    ensures
        r@ == path_joined(base@, rest@),
{
    if is_absolute(rest) {
        return rest.to_owned();
    }
    let chars = chars_of(base);
    let n: usize = chars.len();
    let mut r = base.to_owned();
    if n > 0 && chars[n - 1] != '/' {
        r.push('/');
    }
    r.append(rest);
    r
}

/// Whether two paths name the same place: both start at the root or neither does,
/// and they have the same components.
pub open spec fn same_place(a: Seq<char>, b: Seq<char>) -> bool {
    path_is_absolute(a) == path_is_absolute(b) && path_components(a) == path_components(b)
}

/// Whether two paths name the same place.
pub fn same_path(a: &str, b: &str) -> (r: bool)
    ensures
        r == same_place(a@, b@),
{
    if is_absolute(a) != is_absolute(b) {
        return false;
    }
    let left = components_of(a);
    let right = components_of(b);
    same_texts(&left, &right)
}

/// Components with a slash between each two.
pub open spec fn joined_components(parts: Seq<Seq<char>>) -> Seq<char>
    decreases parts.len(),
{
    if parts.len() == 0 {
        Seq::empty()
    } else if parts.len() == 1 {
        parts[0]
    } else {
        joined_components(parts.drop_last()).push('/') + parts.last()
    }
}

/// The path of `path` from `root` on, which it starts with.
pub open spec fn relative_to(path: Seq<char>, root: Seq<char>) -> Seq<char> {
    joined_components(path_components(path).skip(path_components(root).len() as int))
}

/// The directory that holds what an absolute path names, unless that is the root.
pub open spec fn parent_of_path(path: Seq<char>) -> Option<Seq<char>> {
    if path_components(path).len() == 0 {
        None
    } else {
        Some(seq!['/'] + joined_components(path_components(path).drop_last()))
    }
}

fn join_components(parts: &Vec<String>, from: usize, to: usize) -> (r: String)
    requires
        from <= to <= parts@.len(),
    ensures
        r@ == joined_components(texts_view(parts@).subrange(from as int, to as int)),
{
    let ghost texts = texts_view(parts@);
    let mut r = String::new();
    let mut i: usize = from;
    assert(r@ =~= Seq::<char>::empty());
    assert(texts.subrange(from as int, from as int) =~= Seq::<Seq<char>>::empty());
    while i < to
        invariant
            from <= i <= to <= parts@.len(),
            texts == texts_view(parts@),
            r@ == joined_components(texts.subrange(from as int, i as int)),
        decreases to - i,
    {
        let ghost next = texts.subrange(from as int, i + 1);
        assert(next.drop_last() =~= texts.subrange(from as int, i as int));
        assert(next.last() == parts@[i as int]@);
        if i > from {
            r.push('/');
        } else {
            assert(r@ + next.last() =~= next.last());
        }
        r.append(parts[i].as_str());
        i += 1;
    }
    r
}

/// The path of `path` from `root` on, which it starts with.
pub fn relative_path(path: &str, root: &str) -> (r: String)
    requires
        path_within(path@, root@),
    ensures
        r@ == relative_to(path@, root@),
{
    let parts = components_of(path);
    let root_parts = components_of(root);
    let from: usize = root_parts.len();
    let to: usize = parts.len();
    assert(texts_view(parts@).subrange(from as int, to as int) =~= path_components(path@).skip(
        from as int,
    ));
    join_components(&parts, from, to)
}

/// The directory that holds what an absolute path names, unless that is the root.
pub fn parent_path(path: &str) -> (r: Option<String>)
    ensures
        optional_view(r) == parent_of_path(path@),
{
    let parts = components_of(path);
    let n: usize = parts.len();
    if n == 0 {
        return None;
    }
    assert(texts_view(parts@).subrange(0, n - 1) =~= path_components(path@).drop_last());
    let inner = join_components(&parts, 0, n - 1);
    let mut r = String::new();
    r.push('/');
    r.append(inner.as_str());
    assert(r@ =~= seq!['/'] + inner@);
    Some(r)
}

/// The mark by which a component is ordered: a dot, then two dots, then names.
pub open spec fn component_mark(part: Seq<char>) -> char {
    if part == "."@ {
        '\u{2}'
    } else if part == ".."@ {
        '\u{3}'
    } else {
        '\u{4}'
    }
}

/// Components with their marks, each ended by a character that no name holds.
pub open spec fn marked(parts: Seq<Seq<char>>) -> Seq<char>
    decreases parts.len(),
{
    if parts.len() == 0 {
        Seq::empty()
    } else {
        (marked(parts.drop_last()).push(component_mark(parts.last())) + parts.last()).push('\0')
    }
}

/// The place of a path among others, as a text. Paths are compared component by
/// component, whatever stands between the components: those that start at the root
/// come first, and a path comes before those below it.
pub open spec fn path_place(path: Seq<char>) -> Seq<char> {
    if path_is_absolute(path) {
        seq!['\u{1}'] + marked(path_components(path))
    } else {
        marked(path_components(path))
    }
}

/// Two paths with the same components have the same place.
pub proof fn same_place_same_order(a: Seq<char>, b: Seq<char>)
    requires
        same_place(a, b),
    ensures
        path_place(a) == path_place(b),
{
}

/// The place of a path among others, as a text.
pub fn place_of(path: &str) -> (r: String)
    ensures
        r@ == path_place(path@),
{
    let parts = components_of(path);
    let ghost texts = texts_view(parts@);
    let mut r = String::new();
    let ghost mut start = Seq::<char>::empty();
    if is_absolute(path) {
        r.push('\u{1}');
        proof {
            start = seq!['\u{1}'];
        }
    }
    assert(r@ =~= start);
    let mut i: usize = 0;
    assert(texts.take(0) =~= Seq::<Seq<char>>::empty());
    assert(start + marked(texts.take(0)) =~= start);
    while i < parts.len()
        invariant
            i <= parts@.len(),
            texts == texts_view(parts@),
            r@ == start + marked(texts.take(i as int)),
        decreases parts@.len() - i,
    {
        let ghost before = marked(texts.take(i as int));
        assert(texts.take(i + 1).drop_last() =~= texts.take(i as int));
        assert(texts.take(i + 1).last() == parts@[i as int]@);
        let part = parts[i].as_str();
        let mark = if same_text(part, ".") {
            '\u{2}'
        } else if same_text(part, "..") {
            '\u{3}'
        } else {
            '\u{4}'
        };
        r.push(mark);
        r.append(part);
        r.push('\0');
        assert(r@ =~= start + (before.push(mark) + part@).push('\0'));
        i += 1;
    }
    assert(texts.take(i as int) =~= texts);
    assert(start.len() == 0 ==> start + marked(texts) =~= marked(texts));
    r
}

/// A Windows path without the mark that has Windows take it verbatim, which Git does
/// not read.
pub open spec fn not_verbatim(path: Seq<char>) -> Seq<char> {
    if "\\\\?\\UNC\\"@.is_prefix_of(path) {
        "\\\\"@ + path.skip("\\\\?\\UNC\\"@.len() as int)
    } else if "\\\\?\\"@.is_prefix_of(path) {
        path.skip("\\\\?\\"@.len() as int)
    } else {
        path
    }
}

/// A Windows path as Git and users read it.
pub fn plain_windows_path(path: &str) -> (r: String)
    ensures
        r@ == not_verbatim(path@),
{
    let chars = chars_of(path);
    let unc = chars_of("\\\\?\\UNC\\");
    let verbatim = chars_of("\\\\?\\");
    assert(chars@.skip(0) =~= chars@);
    if stands_at(&chars, 0, &unc) {
        let rest = text_of(chars.as_slice(), unc.len(), chars.len());
        assert(rest@ =~= path@.skip(unc@.len() as int));
        join("\\\\", rest.as_str())
    } else if stands_at(&chars, 0, &verbatim) {
        let rest = text_of(chars.as_slice(), verbatim.len(), chars.len());
        assert(rest@ =~= path@.skip(verbatim@.len() as int));
        rest
    } else {
        path.to_owned()
    }
}

} // verus!
