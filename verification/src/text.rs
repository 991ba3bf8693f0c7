//! Small helpers for text held as `String` and `&str`.

use vstd::prelude::*;
use vstd::string::StringExecFns;

verus! {

/// `parts` written one after another with `separator` between neighbours.
pub open spec fn joined(parts: Seq<Seq<char>>, separator: Seq<char>) -> Seq<char>
    decreases parts.len(),
{
    if parts.len() == 0 {
        Seq::empty()
    } else if parts.len() == 1 {
        parts[0]
    } else {
        joined(parts.drop_last(), separator) + separator + parts.last()
    }
}

/// Whether two pieces of text hold the same characters.
pub fn same_text(left: &str, right: &str) -> (same: bool)
    ensures
        same == (left@ == right@),
{
    String::from_str(left) == String::from_str(right)
}

/// An owned copy of every item, in order.
pub fn owned_list(items: &Vec<&str>) -> (owned: Vec<String>)
    ensures
        owned.deep_view() == items.deep_view(),
{
    let mut owned: Vec<String> = Vec::new();
    let mut index: usize = 0;
    while index < items.len()
        invariant
            index <= items.len(),
            owned.len() == index,
            forall|i: int| 0 <= i < index ==> owned[i]@ == items[i]@,
        decreases items.len() - index,
    {
        owned.push(String::from_str(items[index]));
        index += 1;
    }
    assert(owned.deep_view() =~= items.deep_view());
    owned
}

/// The items written one after another with `separator` between neighbours.
pub fn join(parts: &Vec<&str>, separator: &str) -> (text: String)
    ensures
        text@ == joined(parts.deep_view(), separator@),
{
    let mut text = String::new();
    let mut index: usize = 0;
    while index < parts.len()
        invariant
            index <= parts.len(),
            text@ == joined(parts.deep_view().take(index as int), separator@),
        decreases parts.len() - index,
    {
        let ghost before = parts.deep_view().take(index as int);
        let ghost after = parts.deep_view().take(index + 1);
        assert(after.drop_last() =~= before);
        assert(after.last() == parts[index as int]@);
        if index > 0 {
            text.append(separator);
        }
        text.append(parts[index]);
        index += 1;
    }
    assert(parts.deep_view().take(parts.len() as int) =~= parts.deep_view());
    text
}

/// The characters of a piece of text that may be absent.
pub open spec fn optional_text(value: Option<String>) -> Option<Seq<char>> {
    match value {
        Some(text) => Some(text@),
        None => None,
    }
}

/// The characters of a borrowed piece of text that may be absent.
pub open spec fn optional_slice(value: Option<&str>) -> Option<Seq<char>> {
    match value {
        Some(text) => Some(text@),
        None => None,
    }
}

/// A borrowed view of a piece of text that may be absent.
pub fn borrowed(value: &Option<String>) -> (slice: Option<&str>)
    ensures
        optional_slice(slice) == optional_text(*value),
{
    match value {
        Some(text) => Some(text.as_str()),
        None => None,
    }
}

} // verus!
