//! Text and path helpers shared by the pipeline stages.
//!
//! Paths are plain strings joined with a forward slash, which every supported
//! toolchain accepts.

use vstd::prelude::*;
use vstd::string::*;
use crate::list::{empty_list, push_item};

verus! {

/// `base` extended by `child`: the two joined by exactly one slash. An empty
/// side leaves the other unchanged.
pub open spec fn spec_join(base: Seq<char>, child: Seq<char>) -> Seq<char> {
    if base.len() == 0 {
        child
    } else if child.len() == 0 {
        base
    } else if base.last() == '/' {
        base + child
    } else {
        base + seq!['/'] + child
    }
}

/// Whether `needle` stands in `hay` at position `at`.
pub open spec fn occurs_at(hay: Seq<char>, needle: Seq<char>, at: int) -> bool {
    &&& 0 <= at
    &&& at + needle.len() <= hay.len()
    &&& forall|j: int| 0 <= j < needle.len() ==> hay[at + j] == needle[j]
}

/// Whether `needle` stands somewhere in `hay`.
pub open spec fn spec_contains(hay: Seq<char>, needle: Seq<char>) -> bool {
    exists|at: int| occurs_at(hay, needle, at)
}

/// Whether `name` is a non-empty stem followed by a dot and `ext`.
pub open spec fn spec_has_extension(name: Seq<char>, ext: Seq<char>) -> bool {
    &&& name.len() > ext.len() + 1
    &&& name[name.len() - ext.len() - 1] == '.'
    &&& occurs_at(name, ext, name.len() - ext.len())
}

/// Each of `names` as a path below `base`.
pub open spec fn spec_join_all(base: Seq<char>, names: Seq<Seq<char>>) -> Seq<Seq<char>> {
    names.map_values(|name: Seq<char>| spec_join(base, name))
}

/// Each of `items` with `prefix` before it.
pub open spec fn spec_prefix_all(prefix: Seq<char>, items: Seq<Seq<char>>) -> Seq<Seq<char>> {
    items.map_values(|item: Seq<char>| prefix + item)
}

/// The views of a list of string slices, in order.
pub open spec fn slice_texts(items: Seq<&str>) -> Seq<Seq<char>> {
    Seq::new(items.len(), |i: int| items[i]@)
}

/// Owned copies of a list of string slices.
pub fn owned_texts(items: &Vec<&str>) -> (list: Vec<String>)
    ensures
        list.deep_view() == slice_texts(items@),
{
    let mut list: Vec<String> = empty_list();
    let mut i: usize = 0;
    proof {
        assert(slice_texts(items@.take(0)) =~= Seq::<Seq<char>>::empty());
    }
    while i < items.len()
        invariant
            i <= items.len(),
            list.deep_view() == slice_texts(items@.take(i as int)),
        decreases items.len() - i,
    {
        push_item(&mut list, String::from_str(items[i]));
        proof {
            assert(slice_texts(items@.take(i as int + 1)) =~= slice_texts(
                items@.take(i as int),
            ).push(items@[i as int]@));
        }
        i += 1;
    }
    proof {
        assert(items@.take(items.len() as int) =~= items@);
    }
    list
}

/// A copy of a list of strings.
pub fn copy_texts(items: &Vec<String>) -> (list: Vec<String>)
    ensures
        list.deep_view() == items.deep_view(),
{
    let mut list: Vec<String> = empty_list();
    let mut i: usize = 0;
    proof {
        assert(items.deep_view().take(0) =~= Seq::<Seq<char>>::empty());
    }
    while i < items.len()
        invariant
            i <= items.len(),
            list.deep_view() == items.deep_view().take(i as int),
        decreases items.len() - i,
    {
        push_item(&mut list, items[i].clone());
        proof {
            assert(items.deep_view().take(i as int + 1) =~= items.deep_view().take(
                i as int,
            ).push(items.deep_view()[i as int]));
        }
        i += 1;
    }
    proof {
        assert(items.deep_view().take(items.len() as int) =~= items.deep_view());
    }
    list
}

/// Each entry of `names` as a path below `base`.
pub fn join_all(base: &str, names: &Vec<String>) -> (paths: Vec<String>)
    ensures
        paths.deep_view() == spec_join_all(base@, names.deep_view()),
{
    let ghost each = |name: Seq<char>| spec_join(base@, name);
    let mut paths: Vec<String> = empty_list();
    let mut i: usize = 0;
    proof {
        assert(names.deep_view().take(0).map_values(each) =~= Seq::<Seq<char>>::empty());
    }
    while i < names.len()
        invariant
            i <= names.len(),
            each == |name: Seq<char>| spec_join(base@, name),
            paths.deep_view() == names.deep_view().take(i as int).map_values(each),
        decreases names.len() - i,
    {
        push_item(&mut paths, join_path(base, names[i].as_str()));
        proof {
            assert(names.deep_view().take(i as int + 1).map_values(each) =~= names.deep_view().take(
                i as int,
            ).map_values(each).push(each(names.deep_view()[i as int])));
        }
        i += 1;
    }
    proof {
        assert(names.deep_view().take(names.len() as int) =~= names.deep_view());
    }
    paths
}

/// Each entry of `items` with `prefix` before it.
pub fn prefix_all(prefix: &str, items: &Vec<String>) -> (list: Vec<String>)
    ensures
        list.deep_view() == spec_prefix_all(prefix@, items.deep_view()),
{
    let ghost each = |item: Seq<char>| prefix@ + item;
    let mut list: Vec<String> = empty_list();
    let mut i: usize = 0;
    proof {
        assert(items.deep_view().take(0).map_values(each) =~= Seq::<Seq<char>>::empty());
    }
    while i < items.len()
        invariant
            i <= items.len(),
            each == |item: Seq<char>| prefix@ + item,
            list.deep_view() == items.deep_view().take(i as int).map_values(each),
        decreases items.len() - i,
    {
        push_item(&mut list, String::from_str(prefix).concat(items[i].as_str()));
        proof {
            assert(items.deep_view().take(i as int + 1).map_values(each) =~= items.deep_view().take(
                i as int,
            ).map_values(each).push(each(items.deep_view()[i as int])));
        }
        i += 1;
    }
    proof {
        assert(items.deep_view().take(items.len() as int) =~= items.deep_view());
    }
    list
}

/// Joins a directory and a relative entry into one path.
pub fn join_path(base: &str, child: &str) -> (path: String)
    ensures
        path@ == spec_join(base@, child@),
{
    let n: usize = base.unicode_len();
    let m: usize = child.unicode_len();
    let mut path = String::from_str(base);
    if n == 0 {
        assert(path@ + child@ =~= child@);
        path.append(child);
    } else if m == 0 {
    } else if base.get_char(n - 1) == '/' {
        path.append(child);
    } else {
        proof {
            reveal_strlit("/");
            assert("/"@ =~= seq!['/']);
        }
        path.append("/");
        path.append(child);
    }
    path
}

/// Whether `needle` stands in `hay` at character position `at`.
pub fn matches_at(hay: &str, needle: &str, at: usize) -> (found: bool)
    ensures
        found == occurs_at(hay@, needle@, at as int),
{
    let n: usize = hay.unicode_len();
    let m: usize = needle.unicode_len();
    if m > n || at > n - m {
        return false;
    }
    let mut j: usize = 0;
    while j < m
        invariant
            n == hay@.len(),
            m == needle@.len(),
            m <= n,
            at <= n - m,
            j <= m,
            forall|k: int| 0 <= k < j ==> hay@[at + k] == needle@[k],
        decreases m - j,
    {
        if hay.get_char(at + j) != needle.get_char(j) {
            return false;
        }
        j += 1;
    }
    true
}

/// Whether two texts hold the same characters.
pub fn equal_text(left: &str, right: &str) -> (same: bool)
    ensures
        same == (left@ == right@),
{
    let n: usize = left.unicode_len();
    let m: usize = right.unicode_len();
    if n != m {
        return false;
    }
    let same = matches_at(left, right, 0);
    proof {
        if same {
            assert(left@ =~= right@);
        }
    }
    same
}

/// Whether `needle` stands somewhere in `hay`. The empty text stands in every
/// text.
pub fn contains_text(hay: &str, needle: &str) -> (found: bool)
    ensures
        found == spec_contains(hay@, needle@),
{
    let n: usize = hay.unicode_len();
    let m: usize = needle.unicode_len();
    if m > n {
        return false;
    }
    let mut at: usize = 0;
    while at <= n - m
        invariant
            n == hay@.len(),
            m == needle@.len(),
            m <= n,
            at <= n - m + 1,
            forall|k: int| 0 <= k < at ==> !occurs_at(hay@, needle@, k),
        decreases n - m + 1 - at,
    {
        if matches_at(hay, needle, at) {
            return true;
        }
        at += 1;
    }
    false
}

/// Whether a file name carries the extension `ext`: a non-empty stem, a dot,
/// then `ext`. A name that is only a dot and `ext` has no extension.
pub fn has_extension(name: &str, ext: &str) -> (found: bool)
    ensures
        found == spec_has_extension(name@, ext@),
{
    let n: usize = name.unicode_len();
    let m: usize = ext.unicode_len();
    if n < 2 || m > n - 2 {
        return false;
    }
    name.get_char(n - m - 1) == '.' && matches_at(name, ext, n - m)
}

} // verus!
