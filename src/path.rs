//! Path keys: a field's position as its segments joined by dots.

use vstd::prelude::*;
use vstd::string::StringExecFns;

verus! {

/// The segments joined by `.`; no segment gives the empty key of the root.
pub open spec fn join_path(segs: Seq<Seq<char>>) -> Seq<char>
    decreases segs.len(),
{
    if segs.len() == 0 {
        Seq::empty()
    } else if segs.len() == 1 {
        segs[0]
    } else {
        join_path(segs.drop_last()) + seq!['.'] + segs.last()
    }
}

/// The segments of a path as character sequences.
pub open spec fn segments(path: Seq<String>) -> Seq<Seq<char>> {
    path.map_values(|s: String| s@)
}

/// The key of a path's parent: the path without its last segment. A top-level
/// field's parent is the root.
pub open spec fn parent_key(segs: Seq<Seq<char>>) -> Seq<char> {
    if segs.len() == 0 {
        Seq::empty()
    } else {
        join_path(segs.drop_last())
    }
}

/// A field one level below `parent` takes, as parent key, the key of
/// `parent`: the span of `a.b` hangs under that of `a`, and a top-level field
/// under the root.
pub proof fn lemma_parent_of_child(parent: Seq<Seq<char>>, name: Seq<char>)
    ensures
        parent_key(parent.push(name)) == join_path(parent),
        parent.len() > 0 ==> join_path(parent.push(name)) == join_path(parent) + seq!['.'] + name,
        parent.len() == 0 ==> join_path(parent.push(name)) == name,
{
    assert(parent.push(name).drop_last() =~= parent);
}

/// The key of the first `n` segments of `path`.
pub fn join_prefix(path: &Vec<String>, n: usize) -> (r: String)
    requires
        n <= path@.len(),
    ensures
        r@ == join_path(segments(path@).take(n as int)),
{
    let mut r = String::new();
    if n == 0 {
        assert(segments(path@).take(0) =~= Seq::<Seq<char>>::empty());
        return r;
    }
    r.append(path[0].as_str());
    assert(segments(path@).take(1) =~= seq![path@[0]@]);
    let mut i: usize = 1;
    while i < n
        invariant
            1 <= i <= n,
            n <= path@.len(),
            r@ == join_path(segments(path@).take(i as int)),
        decreases n - i,
    {
        let ghost before = r@;
        r.append(".");
        proof {
            reveal_strlit(".");
        }
        r.append(path[i].as_str());
        let ghost t = segments(path@).take(i + 1);
        assert(t.drop_last() =~= segments(path@).take(i as int));
        assert(r@ =~= before + seq!['.'] + path@[i as int]@);
        i = i + 1;
    }
    r
}

/// The key of a field's path.
pub fn path_key_of(path: &Vec<String>) -> (r: String)
    ensures
        r@ == join_path(segments(path@)),
{
    let r = join_prefix(path, path.len());
    assert(segments(path@).take(path@.len() as int) =~= segments(path@));
    r
}

/// The key of a field's parent.
pub fn parent_key_of(path: &Vec<String>) -> (r: String)
    ensures
        r@ == parent_key(segments(path@)),
{
    if path.len() == 0 {
        String::new()
    } else {
        let r = join_prefix(path, path.len() - 1);
        assert(segments(path@).take(path@.len() - 1) =~= segments(path@).drop_last());
        r
    }
}

} // verus!
