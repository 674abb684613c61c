//! How paths lie to each other.
use vstd::prelude::*;
use vstd::string::*;

use crate::paths::{
    joined_components, named_pieces, not_verbatim, parent_of_path, path_components,
    path_is_absolute, path_joined, path_within, relative_to, same_place, split_on,
};
use crate::session_source_laws::{
    components_are_names, inner_components, joined_paths_lie_below, lemma_named_concat,
    lemma_split_concat,
};

verus! {

/// Whether parts can be components of an absolute path.
pub open spec fn are_names(parts: Seq<Seq<char>>) -> bool {
    &&& forall|i: int| 0 <= i < parts.len() ==> (#[trigger] parts[i]).len() > 0
    &&& forall|i: int| 0 <= i < parts.len() ==> #[trigger] parts[i] != "."@
    &&& forall|i: int, k: int|
        0 <= i < parts.len() && 0 <= k < parts[i].len() ==> #[trigger] parts[i][k] != '/'
}

proof fn lemma_split_one(s: Seq<char>, separator: char)
    requires
        forall|k: int| 0 <= k < s.len() ==> #[trigger] s[k] != separator,
    ensures
        split_on(s, separator) == seq![s],
    decreases s.len(),
{
    if s.len() == 0 {
        assert(s =~= Seq::<char>::empty());
    } else {
        assert forall|k: int| 0 <= k < s.drop_last().len() implies #[trigger] s.drop_last()[k]
            != separator by {
            assert(s[k] != separator);
        }
        lemma_split_one(s.drop_last(), separator);
        assert(s.last() == s[s.len() - 1]);
        assert(split_on(s, separator) =~= seq![s.drop_last().push(s.last())]);
        assert(s.drop_last().push(s.last()) =~= s);
    }
}

proof fn lemma_split_joined(parts: Seq<Seq<char>>)
    requires
        are_names(parts),
        parts.len() > 0,
    ensures
        split_on(joined_components(parts), '/') == parts,
        joined_components(parts).len() > 0,
        joined_components(parts)[0] != '/',
    decreases parts.len(),
{
    let last = parts.last();
    assert(last == parts[parts.len() - 1]);
    assert forall|k: int| 0 <= k < last.len() implies #[trigger] last[k] != '/' by {
        assert(parts[parts.len() - 1][k] != '/');
    }
    lemma_split_one(last, '/');
    if parts.len() == 1 {
        assert(parts =~= seq![last]);
        assert(parts[0][0] != '/');
    } else {
        let front = parts.drop_last();
        assert(are_names(front)) by {
            assert forall|i: int, k: int|
                0 <= i < front.len() && 0 <= k < front[i].len() implies #[trigger] front[i][k]
                != '/' by {
                assert(parts[i][k] != '/');
            }
            assert forall|i: int| 0 <= i < front.len() implies (#[trigger] front[i]).len() > 0 by {
                assert(front[i] == parts[i]);
            }
            assert forall|i: int| 0 <= i < front.len() implies #[trigger] front[i] != "."@ by {
                assert(front[i] == parts[i]);
            }
        }
        lemma_split_joined(front);
        lemma_split_concat(joined_components(front), last, '/');
        assert(joined_components(parts) =~= joined_components(front) + seq!['/'] + last);
        assert(joined_components(parts)[0] == joined_components(front)[0]);
        assert(parts =~= front + seq![last]);
    }
}

proof fn lemma_inner_of_names(parts: Seq<Seq<char>>)
    requires
        are_names(parts),
    ensures
        inner_components(parts) == parts,
    decreases parts.len(),
{
    if parts.len() > 0 {
        let front = parts.drop_last();
        assert(are_names(front)) by {
            assert forall|i: int, k: int|
                0 <= i < front.len() && 0 <= k < front[i].len() implies #[trigger] front[i][k]
                != '/' by {
                assert(parts[i][k] != '/');
            }
            assert forall|i: int| 0 <= i < front.len() implies (#[trigger] front[i]).len() > 0 by {
                assert(front[i] == parts[i]);
            }
            assert forall|i: int| 0 <= i < front.len() implies #[trigger] front[i] != "."@ by {
                assert(front[i] == parts[i]);
            }
        }
        lemma_inner_of_names(front);
        assert(parts.last() == parts[parts.len() - 1]);
        assert(inner_components(parts) =~= parts);
    } else {
        assert(inner_components(parts) =~= parts);
    }
}

proof fn lemma_inner_joined(parts: Seq<Seq<char>>)
    requires
        are_names(parts),
    ensures
        inner_components(split_on(joined_components(parts), '/')) == parts,
        !path_is_absolute(joined_components(parts)),
{
    if parts.len() == 0 {
        let none = split_on(Seq::<char>::empty(), '/');
        assert(none =~= seq![Seq::<char>::empty()]);
        assert(none.drop_last() =~= Seq::<Seq<char>>::empty());
        assert(inner_components(none.drop_last()) =~= Seq::<Seq<char>>::empty());
        assert(inner_components(none) =~= parts);
    } else {
        lemma_split_joined(parts);
        lemma_inner_of_names(parts);
    }
}

proof fn lemma_part_names(path: Seq<char>, from: int, to: int)
    requires
        path_is_absolute(path),
        0 <= from <= to <= path_components(path).len(),
    ensures
        are_names(path_components(path).subrange(from, to)),
{
    components_are_names(path);
    let all = path_components(path);
    let some = all.subrange(from, to);
    assert forall|i: int, k: int| 0 <= i < some.len() && 0 <= k < some[i].len() implies
    #[trigger] some[i][k] != '/' by {
        assert(all[from + i][k] != '/');
    }
    assert forall|i: int| 0 <= i < some.len() implies (#[trigger] some[i]).len() > 0 by {
        assert(some[i] == all[from + i]);
    }
    assert forall|i: int| 0 <= i < some.len() implies #[trigger] some[i] != "."@ by {
        assert(some[i] == all[from + i]);
    }
}

proof fn lemma_root()
    ensures
        path_components(seq!['/']) == Seq::<Seq<char>>::empty(),
{
    let none = Seq::<char>::empty();
    assert(seq!['/'] =~= none + seq!['/'] + none);
    lemma_split_concat(none, none, '/');
    let pieces = split_on(none, '/');
    assert(pieces =~= seq![none]);
    assert(pieces.drop_last() =~= Seq::<Seq<char>>::empty());
    lemma_named_concat(pieces, pieces);
    assert(named_pieces(pieces.drop_last()) =~= Seq::<Seq<char>>::empty());
    assert(named_pieces(pieces) =~= Seq::<Seq<char>>::empty());
    assert(inner_components(pieces.drop_last()) =~= Seq::<Seq<char>>::empty());
    assert(inner_components(pieces) =~= Seq::<Seq<char>>::empty());
    assert(path_components(seq!['/']) =~= Seq::<Seq<char>>::empty());
}

/// The parent of an absolute path is absolute, and has all its components but the last; only
/// the root has no parent.
pub proof fn a_parent_lacks_the_last_component(path: Seq<char>)
    requires
        path_is_absolute(path),
    ensures
        parent_of_path(path) is None <==> path_components(path).len() == 0,
        parent_of_path(path) is Some ==> {
            let parent = parent_of_path(path)->0;
            &&& path_is_absolute(parent)
            &&& path_components(parent) == path_components(path).drop_last()
            &&& path_within(path, parent)
            &&& !path_within(parent, path)
        },
{
    let all = path_components(path);
    if all.len() > 0 {
        let front = all.drop_last();
        assert(front =~= all.subrange(0, all.len() - 1));
        lemma_part_names(path, 0, all.len() - 1);
        lemma_inner_joined(front);
        lemma_root();
        let rest = joined_components(front);
        assert(path_joined(seq!['/'], rest) == seq!['/'] + rest);
        joined_paths_lie_below(seq!['/'], rest);
        let parent = parent_of_path(path)->0;
        assert(path_components(parent) =~= front);
        assert(front.is_prefix_of(all));
    }
}

/// Where a path stands below a root leads from the root to the path again.
pub proof fn a_path_is_found_again_from_its_root(path: Seq<char>, root: Seq<char>)
    requires
        path_is_absolute(root),
        path_within(path, root),
    ensures
        !path_is_absolute(relative_to(path, root)),
        same_place(path_joined(root, relative_to(path, root)), path),
        same_place(path, root) ==> relative_to(path, root).len() == 0,
{
    let all = path_components(path);
    let n = path_components(root).len() as int;
    let rest = all.skip(n);
    assert(rest =~= all.subrange(n, all.len() as int));
    lemma_part_names(path, n, all.len() as int);
    lemma_inner_joined(rest);
    joined_paths_lie_below(root, relative_to(path, root));
    assert(path_components(root) + rest =~= all);
}

/// An absolute path lies within another exactly where the components of that one are its first;
/// a relative path never lies within an absolute one, nor an absolute one within a relative
/// one that has a name.
pub proof fn paths_lie_within_their_first_components(path: Seq<char>, root: Seq<char>)
    ensures
        path_is_absolute(path) == path_is_absolute(root) ==> (path_within(path, root)
            <==> path_components(root).len() <= path_components(path).len() && forall|i: int|
            0 <= i < path_components(root).len() ==> #[trigger] path_components(root)[i]
                == path_components(path)[i]),
        path_is_absolute(root) && !path_is_absolute(path) ==> !path_within(path, root),
        path_is_absolute(path) && !path_is_absolute(root) && path_components(root).len() > 0
            ==> !path_within(path, root),
        path_within(path, path),
        path_within(path, root) && path_within(root, path) && path_is_absolute(root) ==> same_place(
            path,
            root,
        ),
{
    let p = path_components(path);
    let r = path_components(root);
    if r.len() <= p.len() && forall|i: int| 0 <= i < r.len() ==> #[trigger] r[i] == p[i] {
        assert(p.subrange(0, r.len() as int) =~= r);
        assert(r.is_prefix_of(p));
    }
    if r.is_prefix_of(p) {
        assert(r =~= p.subrange(0, r.len() as int));
        assert forall|i: int| 0 <= i < r.len() implies #[trigger] r[i] == p[i] by {
            assert(r[i] == p.subrange(0, r.len() as int)[i]);
        }
        if p.is_prefix_of(r) {
            assert(p =~= r);
        }
    }
    assert(p.is_prefix_of(p)) by {
        assert(p.subrange(0, p.len() as int) =~= p);
    }
}

/// Two paths name the same place exactly where both start at the root, or neither does, and
/// their components are the same; a slash at the end makes no difference.
pub proof fn same_components_are_the_same_place(a: Seq<char>, b: Seq<char>)
    ensures
        same_place(a, b) <==> path_is_absolute(a) == path_is_absolute(b) && path_components(a).len()
            == path_components(b).len() && forall|i: int|
            0 <= i < path_components(a).len() ==> #[trigger] path_components(a)[i]
                == path_components(b)[i],
        same_place(a, a),
        a.len() > 0 ==> same_place(a.push('/'), a),
{
    if path_components(a).len() == path_components(b).len() && forall|i: int|
        0 <= i < path_components(a).len() ==> #[trigger] path_components(a)[i]
            == path_components(b)[i] {
        assert(path_components(a) =~= path_components(b));
    }
    if a.len() > 0 {
        let none = Seq::<char>::empty();
        lemma_split_concat(a, none, '/');
        assert(a.push('/') =~= a + seq!['/'] + none);
        let pieces = split_on(none, '/');
        assert(pieces =~= seq![none]);
        assert(pieces.drop_last() =~= Seq::<Seq<char>>::empty());
        assert(inner_components(pieces.drop_last()) =~= Seq::<Seq<char>>::empty());
        assert(inner_components(pieces) =~= Seq::<Seq<char>>::empty());
        crate::session_preview_laws::pieces_make_the_text_again(a, '/');
        lemma_named_concat(split_on(a, '/'), pieces);
        assert(path_components(a.push('/')) =~= path_components(a));
        assert(a.push('/')[0] == a[0]);
    }
}

/// The verbatim form of a path names what stands behind its mark, and a share by its two
/// slashes; every other path is left as it is.
pub proof fn verbatim_paths_lose_their_mark(rest: Seq<char>, other: Seq<char>)
    requires
        !("UNC\\"@.is_prefix_of(rest)),
        !("\\\\?\\"@.is_prefix_of(other)),
    ensures
        not_verbatim("\\\\?\\"@ + rest) == rest,
        not_verbatim("\\\\?\\UNC\\"@ + rest) == "\\\\"@ + rest,
        not_verbatim(other) == other,
{
    reveal_strlit("UNC\\");
    reveal_strlit("\\\\?\\");
    reveal_strlit("\\\\?\\UNC\\");
    let mark = "\\\\?\\"@;
    let share = "\\\\?\\UNC\\"@;
    assert(share =~= mark + "UNC\\"@);
    assert((mark + rest).skip(mark.len() as int) =~= rest);
    assert((share + rest).skip(share.len() as int) =~= rest);
    assert(share.is_prefix_of(share + rest)) by {
        assert((share + rest).subrange(0, share.len() as int) =~= share);
    }
    assert(mark.is_prefix_of(mark + rest)) by {
        assert((mark + rest).subrange(0, mark.len() as int) =~= mark);
    }
    if share.is_prefix_of(mark + rest) {
        let whole = mark + rest;
        assert(whole.subrange(0, share.len() as int) =~= share);
        assert(rest.subrange(0, "UNC\\"@.len() as int) =~= "UNC\\"@) by {
            assert forall|i: int| 0 <= i < 4 implies rest[i] == "UNC\\"@[i] by {
                assert(whole[4 + i] == whole.subrange(0, share.len() as int)[4 + i]);
            }
        }
    }
    if share.is_prefix_of(other) {
        assert(other.subrange(0, mark.len() as int) =~= mark) by {
            assert forall|i: int| 0 <= i < 4 implies other[i] == mark[i] by {
                assert(other[i] == other.subrange(0, share.len() as int)[i]);
            }
        }
    }
}

} // verus!
