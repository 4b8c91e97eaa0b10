//! Paths as text, with `/` as the separator: joining, and taking a path
//! apart into its parent directory and its last component.

use vstd::prelude::*;
use vstd::string::StringExecFns;
use crate::text::{chars_of, split, split_spec, string_of, texts};

verus! {

/// A path is absolute when it begins at the root.
pub open spec fn is_absolute_spec(path: Seq<char>) -> bool {
    path.len() > 0 && path[0] == '/'
}

/// `rel` seen from `base`: an absolute `rel` stands for itself, and a
/// separator is put between the two unless `base` is empty or ends with one.
pub open spec fn join_spec(base: Seq<char>, rel: Seq<char>) -> Seq<char> {
    if is_absolute_spec(rel) || base.len() == 0 {
        rel
    } else if base.last() == '/' {
        base + rel
    } else {
        base.push('/') + rel
    }
}

/// Tells whether `path` is absolute.
pub fn is_absolute(path: &str) -> (b: bool)
    ensures
        b == is_absolute_spec(path@),
{
    let v = chars_of(path);
    v.len() > 0 && v[0] == '/'
}

/// Joins `rel` onto `base`.
pub fn join(base: &str, rel: &str) -> (joined: String)
    ensures
        joined@ == join_spec(base@, rel@),
{
    let b = chars_of(base);
    if is_absolute(rel) || b.len() == 0 {
        rel.to_owned()
    } else {
        let mut joined = base.to_owned();
        if b[b.len() - 1] != '/' {
            joined.push('/');
        }
        joined.append(rel);
        joined
    }
}

/// `path` without the separators it ends with; a path made of separators
/// alone keeps one, the root.
pub open spec fn strip_slashes(path: Seq<char>) -> Seq<char>
    decreases path.len(),
{
    if path.len() > 1 && path.last() == '/' {
        strip_slashes(path.drop_last())
    } else {
        path
    }
}

/// The index of the last `c` in `s`, or -1 where there is none.
pub open spec fn last_index(s: Seq<char>, c: char) -> int
    decreases s.len(),
{
    if s.len() == 0 {
        -1
    } else if s.last() == c {
        s.len() - 1
    } else {
        last_index(s.drop_last(), c)
    }
}

/// Whether a path names something below a directory: neither empty nor the
/// root.
pub open spec fn has_parent(path: Seq<char>) -> bool {
    let t = strip_slashes(path);
    t.len() > 0 && t != seq!['/']
}

/// The directory that holds `path`: empty for a bare name, the root for a
/// name directly below it.
pub open spec fn parent_spec(path: Seq<char>) -> Seq<char> {
    let t = strip_slashes(path);
    let i = last_index(t, '/');
    if i < 0 {
        Seq::<char>::empty()
    } else if i == 0 {
        seq!['/']
    } else {
        strip_slashes(t.take(i))
    }
}

/// The last component of `path`.
pub open spec fn file_name_spec(path: Seq<char>) -> Seq<char> {
    let t = strip_slashes(path);
    t.skip(last_index(t, '/') + 1)
}

/// The length of `v[..to]` once trailing separators are left off.
fn strip_slashes_at(v: &Vec<char>, to: usize) -> (j: usize)
    requires
        to <= v.len(),
    ensures
        j <= to,
        v@.take(j as int) == strip_slashes(v@.take(to as int)),
{
    let mut j: usize = to;
    while j > 1 && v[j - 1] == '/'
        invariant
            j <= to <= v.len(),
            strip_slashes(v@.take(j as int)) == strip_slashes(v@.take(to as int)),
        decreases j,
    {
        assert(v@.take(j as int).drop_last() == v@.take(j as int - 1));
        j -= 1;
    }
    j
}

/// The index after the last `c` in `v[..to]`, or 0 where there is none.
fn after_last_at(v: &Vec<char>, c: char, to: usize) -> (j: usize)
    requires
        to <= v.len(),
    ensures
        j <= to,
        j == last_index(v@.take(to as int), c) + 1,
{
    let mut j: usize = to;
    while j > 0 && v[j - 1] != c
        invariant
            j <= to <= v.len(),
            last_index(v@.take(j as int), c) == last_index(v@.take(to as int), c),
        decreases j,
    {
        assert(v@.take(j as int).drop_last() == v@.take(j as int - 1));
        j -= 1;
    }
    j
}

/// Takes a path apart into the directory that holds it and its last
/// component. The empty path and the root have neither.
pub fn split_path(path: &str) -> (parts: Option<(String, String)>)
    ensures
        match parts {
            Some((parent, name)) => {
                &&& has_parent(path@)
                &&& parent@ == parent_spec(path@)
                &&& name@ == file_name_spec(path@)
            },
            None => !has_parent(path@),
        },
{
    let v = chars_of(path);
    assert(v@.take(v.len() as int) == v@);
    let end = strip_slashes_at(&v, v.len());
    let ghost t = v@.take(end as int);
    if end == 0 || (end == 1 && v[0] == '/') {
        proof {
            if end == 1 {
                assert(t =~= seq!['/']);
            }
        }
        return None;
    }
    proof {
        if t == seq!['/'] {
            assert(t.len() == 1);
            assert(seq!['/'][0] == '/');
        }
    }
    let name_start = after_last_at(&v, '/', end);
    let name = string_of(&v, name_start, end);
    assert(v@.subrange(name_start as int, end as int) == t.skip(name_start as int));
    let parent = if name_start == 0 {
        String::new()
    } else if name_start == 1 {
        let mut root = String::new();
        root.push('/');
        assert(root@ == seq!['/']);
        root
    } else {
        assert(t.take(name_start as int - 1) == v@.take(name_start as int - 1));
        let parent_end = strip_slashes_at(&v, name_start - 1);
        assert(v@.take(parent_end as int) == v@.subrange(0, parent_end as int));
        string_of(&v, 0, parent_end)
    };
    Some((parent, name))
}

/// The last component of a path; empty for the empty path and the root.
pub fn file_name(path: &str) -> (name: String)
    ensures
        name@ == file_name_spec(path@),
{
    match split_path(path) {
        Some(parts) => parts.1,
        None => {
            proof {
                let t = strip_slashes(path@);
                if t.len() != 0 {
                    assert(t == seq!['/']);
                    assert(t.len() == 1 && t[0] == '/');
                    assert(t.drop_last().len() == 0);
                    assert(last_index(t, '/') == 0);
                } else {
                    assert(last_index(t, '/') == -1);
                }
                assert(file_name_spec(path@) =~= Seq::<char>::empty());
            }
            String::new()
        },
    }
}

/// The directory that has to exist before something can be created at
/// `path`; `None` where `path` is empty or the root.
pub fn parent_mkdirp(path: &str) -> (parent: Option<String>)
    ensures
        parent is Some <==> has_parent(path@),
        parent is Some ==> parent->0@ == parent_spec(path@),
{
    match split_path(path) {
        Some(parts) => Some(parts.0),
        None => None,
    }
}

/// The component that stands for the directory one is in.
pub open spec fn dot() -> Seq<char> {
    seq!['.']
}

/// Whether piece `i` of a path split at its separators is a component: an
/// empty piece is none, and `.` is one only in first place.
pub open spec fn is_component(pieces: Seq<Seq<char>>, i: int) -> bool {
    pieces[i].len() > 0 && (pieces[i] != dot() || i == 0)
}

/// The components among the first `n` pieces, in order.
pub open spec fn components_among(pieces: Seq<Seq<char>>, n: int) -> Seq<Seq<char>>
    decreases n,
{
    if n <= 0 {
        Seq::empty()
    } else if is_component(pieces, n - 1) {
        components_among(pieces, n - 1).push(pieces[n - 1])
    } else {
        components_among(pieces, n - 1)
    }
}

/// The components of a path: what stands between its separators, without
/// the empty pieces that repeated and trailing separators leave, and without
/// `.` except where the path begins with it.
pub open spec fn components_spec(path: Seq<char>) -> Seq<Seq<char>> {
    components_among(split_spec(path, '/'), split_spec(path, '/').len() as int)
}

/// Two spellings name the same path when both begin at the root or neither
/// does, and their components are the same. Nothing is looked up: `..` and
/// links stay as they are written.
pub open spec fn same_path_spec(a: Seq<char>, b: Seq<char>) -> bool {
    is_absolute_spec(a) == is_absolute_spec(b) && components_spec(a) == components_spec(b)
}

/// Takes a path apart into its components.
pub fn components(path: &str) -> (parts: Vec<String>)
    ensures
        texts(parts@) == components_spec(path@),
{
    let pieces = split(path, '/');
    let mut parts: Vec<String> = Vec::new();
    let mut i: usize = 0;
    assert(texts(parts@) =~= Seq::<Seq<char>>::empty());
    while i < pieces.len()
        invariant
            i <= pieces.len(),
            texts(pieces@) == split_spec(path@, '/'),
            texts(parts@) == components_among(texts(pieces@), i as int),
        decreases pieces.len() - i,
    {
        let piece = chars_of(pieces[i].as_str());
        let is_dot = piece.len() == 1 && piece[0] == '.';
        proof {
            assert(texts(pieces@)[i as int] == piece@);
            if is_dot {
                assert(piece@ =~= dot());
            } else if piece@ == dot() {
                assert(dot().len() == 1 && dot()[0] == '.');
            }
        }
        if piece.len() > 0 && (!is_dot || i == 0) {
            let ghost before = texts(parts@);
            let part = pieces[i].clone();
            parts.push(part);
            assert(texts(parts@) =~= before.push(piece@));
        }
        i += 1;
    }
    parts
}

/// Tells whether two lists of strings hold the same texts.
fn same_texts(a: &Vec<String>, b: &Vec<String>) -> (same: bool)
    ensures
        same == (texts(a@) == texts(b@)),
{
    if a.len() != b.len() {
        assert(texts(a@).len() != texts(b@).len());
        return false;
    }
    let mut i: usize = 0;
    while i < a.len()
        invariant
            i <= a.len(),
            a.len() == b.len(),
            forall|k: int| 0 <= k < i ==> a[k]@ == b[k]@,
        decreases a.len() - i,
    {
        if a[i] != b[i] {
            assert(texts(a@)[i as int] != texts(b@)[i as int]);
            return false;
        }
        i += 1;
    }
    assert(texts(a@) =~= texts(b@));
    true
}

/// Tells whether two spellings name the same path, component by component.
pub fn same_path(a: &str, b: &str) -> (same: bool)
    ensures
        same == same_path_spec(a@, b@),
{
    if is_absolute(a) != is_absolute(b) {
        return false;
    }
    let left = components(a);
    let right = components(b);
    same_texts(&left, &right)
}

} // verus!
