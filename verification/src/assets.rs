//! Combining the listings of two asset sources.

use vstd::prelude::*;

verus! {

/// The listing of the combined sources: the secondary source's listing
/// followed by the primary's; nothing when the secondary could not list, and
/// the secondary's alone when only the primary could not.
pub fn merge_listings<T>(secondary: Option<Vec<T>>, primary: Option<Vec<T>>) -> (all: Vec<T>)
    ensures
        all@ == match secondary {
            Some(s) => match primary {
                Some(p) => s@ + p@,
                None => s@,
            },
            None => Seq::<T>::empty(),
        },
{
    let mut all: Vec<T> = Vec::new();
    if let Some(mut s) = secondary {
        all.append(&mut s);
        if let Some(mut p) = primary {
            all.append(&mut p);
        }
    }
    all
}

} // verus!
