//! Small helpers on strings and lists of strings.
//!
//! Contracts speak of a string by its characters and of a list of strings by
//! the list of their characters, which is what `deep_view` yields.

use vstd::prelude::*;
use vstd::utf8::{encode_utf8, encode_utf8_decode_utf8};

verus! {

/// Whether two strings hold the same characters.
pub fn same_text(a: &str, b: &str) -> (same: bool)
    ensures
        same == (a@ == b@),
{
    let x = a.as_bytes();
    let y = b.as_bytes();
    proof {
        encode_utf8_decode_utf8(a@);
        encode_utf8_decode_utf8(b@);
    }
    if x.len() != y.len() {
        return false;
    }
    let mut i: usize = 0;
    while i < x.len()
        invariant
            i <= x.len(),
            x.len() == y.len(),
            x@ == encode_utf8(a@),
            y@ == encode_utf8(b@),
            forall|j: int| 0 <= j < i ==> x@[j] == y@[j],
        decreases x.len() - i,
    {
        if x[i] != y[i] {
            return false;
        }
        i += 1;
    }
    assert(x@ =~= y@);
    true
}

/// Appends a copy of `word` to `list`.
pub fn push_text(list: &mut Vec<String>, word: &str)
    ensures
        final(list).deep_view() == old(list).deep_view().push(word@),
{
    list.push(word.to_owned());
    assert(list.deep_view() =~= old(list).deep_view().push(word@));
}

/// A list of strings that holds nothing.
pub fn no_texts() -> (list: Vec<String>)
    ensures
        list.deep_view() == Seq::<Seq<char>>::empty(),
{
    let list: Vec<String> = Vec::new();
    assert(list.deep_view() =~= Seq::<Seq<char>>::empty());
    list
}

/// Appends a copy of each string of `more` to `list`.
pub fn extend_texts(list: &mut Vec<String>, more: &Vec<String>)
    ensures
        final(list).deep_view() == old(list).deep_view() + more.deep_view(),
{
    let mut i: usize = 0;
    while i < more.len()
        invariant
            i <= more.len(),
            list.deep_view() == old(list).deep_view() + more.deep_view().subrange(0, i as int),
        decreases more.len() - i,
    {
        let ghost before = list.deep_view();
        list.push(more[i].clone());
        assert(list.deep_view() =~= before.push(more@[i as int]@));
        assert(list.deep_view() =~= old(list).deep_view() + more.deep_view().subrange(
            0,
            i + 1,
        ));
        i += 1;
    }
    assert(more.deep_view().subrange(0, more.len() as int) =~= more.deep_view());
}

/// A copy of a list of strings.
pub fn copy_texts(list: &Vec<String>) -> (copy: Vec<String>)
    ensures
        copy.deep_view() == list.deep_view(),
{
    let mut copy: Vec<String> = Vec::new();
    assert(copy.deep_view() =~= Seq::<Seq<char>>::empty());
    extend_texts(&mut copy, list);
    assert(Seq::<Seq<char>>::empty() + list.deep_view() =~= list.deep_view());
    copy
}

/// A copy of a list of lists of strings.
pub fn copy_nested_texts(lists: &Vec<Vec<String>>) -> (copy: Vec<Vec<String>>)
    ensures
        copy.deep_view() == lists.deep_view(),
{
    let mut copy: Vec<Vec<String>> = Vec::new();
    let mut i: usize = 0;
    while i < lists.len()
        invariant
            i <= lists.len(),
            copy.len() == i,
            forall|j: int| 0 <= j < i ==> copy@[j].deep_view() == lists@[j].deep_view(),
        decreases lists.len() - i,
    {
        copy.push(copy_texts(&lists[i]));
        i += 1;
    }
    assert(copy.deep_view() =~= lists.deep_view());
    copy
}

/// A copy of a list of aliases: pairs of a specifier prefix and the paths
/// that replace it.
pub fn copy_aliases(aliases: &Vec<(String, Vec<String>)>) -> (copy: Vec<(String, Vec<String>)>)
    ensures
        copy.deep_view() == aliases.deep_view(),
{
    let mut copy: Vec<(String, Vec<String>)> = Vec::new();
    let mut i: usize = 0;
    while i < aliases.len()
        invariant
            i <= aliases.len(),
            copy.len() == i,
            forall|j: int| 0 <= j < i ==> copy@[j].deep_view() == aliases@[j].deep_view(),
        decreases aliases.len() - i,
    {
        let entry = &aliases[i];
        copy.push((entry.0.clone(), copy_texts(&entry.1)));
        i += 1;
    }
    assert(copy.deep_view() =~= aliases.deep_view());
    copy
}

} // verus!
