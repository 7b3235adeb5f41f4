//! The admission rule of the logging middleware of the service.
use vstd::prelude::*;
use crate::compare::chars_of;

verus! {

/// The character whose presence in a request's debug text makes the
/// middleware refuse the request.
pub open spec fn reject_marker() -> char {
    'M'
}

/// Whether a request, given by its debug text, is refused: it is when the
/// text holds the character `M` anywhere.
pub fn rejects_request(request_text: &str) -> (r: bool)
    ensures
        r == request_text@.contains(reject_marker()),
{
    let info = chars_of(request_text);
    let mut i: usize = 0;
    while i < info.len()
        invariant
            info@ == request_text@,
            i <= info@.len(),
            forall|j: int| 0 <= j < i ==> info@[j] != reject_marker(),
        decreases info@.len() - i,
    {
        if info[i] == 'M' {
            return true;
        }
        i += 1;
    }
    false
}

} // verus!
