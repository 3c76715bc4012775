//! Views of the standard containers that the contracts speak of.

use vstd::prelude::*;

verus! {

/// A result with each side replaced by its view.
pub open spec fn result_view<T: View, E: View>(r: Result<T, E>) -> Result<T::V, E::V> {
    match r {
        Ok(value) => Ok(value@),
        Err(error) => Err(error@),
    }
}

/// An option with its content replaced by its view.
pub open spec fn option_view<T: View>(o: Option<T>) -> Option<T::V> {
    match o {
        Some(value) => Some(value@),
        None => None,
    }
}

/// A list with each element replaced by its view.
pub open spec fn list_view<T: View>(list: Seq<T>) -> Seq<T::V> {
    list.map_values(|item: T| item@)
}

/// A copy of a list of texts.
pub fn clone_texts(texts: &Vec<String>) -> (r: Vec<String>)
    ensures
        list_view(r@) == list_view(texts@),
{
    let mut out: Vec<String> = Vec::new();
    let mut i: usize = 0;
    while i < texts.len()
        invariant
            i <= texts.len(),
            out@.len() == i,
            forall|j: int| 0 <= j < i ==> out@[j]@ == texts@[j]@,
        decreases texts.len() - i,
    {
        out.push(texts[i].clone());
        i += 1;
    }
    assert(list_view(out@) =~= list_view(texts@));
    out
}

/// A copy of a text that may be absent.
pub fn clone_optional_text(text: &Option<String>) -> (r: Option<String>)
    ensures
        option_view(r) == option_view(*text),
{
    match text {
        Some(text) => Some(text.clone()),
        None => None,
    }
}

} // verus!
