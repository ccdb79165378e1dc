//! Lists of plain values and of texts.
use crate::text::text_eq;
use vstd::prelude::*;

verus! {

/// Copies a list of plain values.
pub fn copy_list<T: Copy>(list: &Vec<T>) -> (copy: Vec<T>)
    ensures
        copy@ == list@,
{
    let mut copy: Vec<T> = Vec::new();
    let mut i: usize = 0;
    while i < list.len()
        invariant
            i <= list.len(),
            copy@ == list@.take(i as int),
        decreases list.len() - i,
    {
        copy.push(list[i]);
        assert(list@.take(i + 1) =~= list@.take(i as int).push(list@[i as int]));
        i = i + 1;
    }
    assert(list@.take(i as int) =~= list@);
    copy
}

/// The models of texts.
pub open spec fn strings_view(s: Seq<String>) -> Seq<Seq<char>> {
    Seq::new(s.len(), |i: int| s[i]@)
}

/// Appending an element appends its model.
pub broadcast proof fn lemma_strings_push(s: Seq<String>, e: String)
    ensures
        #[trigger] strings_view(s.push(e)) == strings_view(s).push(e@),
{
    assert(strings_view(s.push(e)) =~= strings_view(s).push(e@));
}

/// Copies texts.
pub fn duplicate_strings(list: &Vec<String>) -> (copy: Vec<String>)
    ensures
        strings_view(copy@) == strings_view(list@),
{
    let mut copy: Vec<String> = Vec::new();
    let mut i: usize = 0;
    while i < list.len()
        invariant
            i <= list.len(),
            copy.len() == i,
            forall|j: int|
                0 <= j < i ==> strings_view(copy@)[j] == #[trigger] strings_view(list@)[j],
        decreases list.len() - i,
    {
        let ghost before = copy@;
        let item: String = list[i].clone();
        copy.push(item);
        proof {
            lemma_strings_push(before, item);
        }
        i = i + 1;
    }
    assert(strings_view(copy@) =~= strings_view(list@));
    copy
}

/// Whether two lists of texts are equal.
pub fn same_strings(list: &Vec<String>, other: &Vec<String>) -> (yes: bool)
    ensures
        yes == (strings_view(list@) == strings_view(other@)),
{
    if list.len() != other.len() {
        assert(strings_view(list@).len() != strings_view(other@).len());
        return false;
    }
    let mut i: usize = 0;
    while i < list.len()
        invariant
            i <= list.len(),
            list.len() == other.len(),
            forall|j: int|
                0 <= j < i ==> strings_view(list@)[j] == #[trigger] strings_view(other@)[j],
        decreases list.len() - i,
    {
        let eq = text_eq(list[i].as_str(), other[i].as_str());
        if !eq {
            assert(strings_view(list@)[i as int] != strings_view(other@)[i as int]);
            return false;
        }
        i = i + 1;
    }
    assert(strings_view(list@) =~= strings_view(other@));
    true
}

/// Whether two lists of indices are equal.
pub fn same_indices(list: &Vec<usize>, other: &Vec<usize>) -> (yes: bool)
    ensures
        yes == (list@ == other@),
{
    if list.len() != other.len() {
        assert(list@.len() != other@.len());
        return false;
    }
    let mut i: usize = 0;
    while i < list.len()
        invariant
            i <= list.len(),
            list.len() == other.len(),
            forall|j: int| 0 <= j < i ==> list@[j] == #[trigger] other@[j],
        decreases list.len() - i,
    {
        let eq = list[i] == other[i];
        if !eq {
            assert(list@[i as int] != other@[i as int]);
            return false;
        }
        i = i + 1;
    }
    assert(list@ =~= other@);
    true
}

/// Whether two lists of flags are equal.
pub fn same_flags(list: &Vec<bool>, other: &Vec<bool>) -> (yes: bool)
    ensures
        yes == (list@ == other@),
{
    if list.len() != other.len() {
        assert(list@.len() != other@.len());
        return false;
    }
    let mut i: usize = 0;
    while i < list.len()
        invariant
            i <= list.len(),
            list.len() == other.len(),
            forall|j: int| 0 <= j < i ==> list@[j] == #[trigger] other@[j],
        decreases list.len() - i,
    {
        let eq = list[i] == other[i];
        if !eq {
            assert(list@[i as int] != other@[i as int]);
            return false;
        }
        i = i + 1;
    }
    assert(list@ =~= other@);
    true
}

/// Whether two lists of bytes are equal.
pub fn same_bytes(list: &Vec<u8>, other: &Vec<u8>) -> (yes: bool)
    ensures
        yes == (list@ == other@),
{
    if list.len() != other.len() {
        assert(list@.len() != other@.len());
        return false;
    }
    let mut i: usize = 0;
    while i < list.len()
        invariant
            i <= list.len(),
            list.len() == other.len(),
            forall|j: int| 0 <= j < i ==> list@[j] == #[trigger] other@[j],
        decreases list.len() - i,
    {
        let eq = list[i] == other[i];
        if !eq {
            assert(list@[i as int] != other@[i as int]);
            return false;
        }
        i = i + 1;
    }
    assert(list@ =~= other@);
    true
}

/// The models of optional texts.
pub open spec fn optional_strings_view(s: Seq<Option<String>>) -> Seq<Option<Seq<char>>> {
    Seq::new(s.len(), |i: int| match s[i] { Some(x) => Some(x@), None => None })
}

/// Appending an element appends its model.
pub broadcast proof fn lemma_optional_strings_push(s: Seq<Option<String>>, e: Option<String>)
    ensures
        #[trigger] optional_strings_view(s.push(e)) == optional_strings_view(s).push(
            match e {
                Some(x) => Some(x@),
                None => None,
            },
        ),
{
    assert(optional_strings_view(s.push(e)) =~= optional_strings_view(s).push(
        match e {
            Some(x) => Some(x@),
            None => None,
        },
    ));
}

} // verus!
