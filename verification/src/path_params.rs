//! Extraction of a handler's path parameters from what the router captured.

use crate::error::{BodyError, BodyErrorView};
use vstd::prelude::*;
use vstd::string::*;

verus! {

/// Whether a decoder's message reports a field for which no path segment was
/// captured.
pub open spec fn is_missing_field(message: Seq<char>) -> bool {
    "missing field: "@.is_prefix_of(message)
}

/// Whether a decoder's message reports a missing field.
pub fn names_missing_field(message: &str) -> (r: bool)
    ensures
        r == is_missing_field(message@),
{
    let prefix: &'static str = "missing field: ";
    let n: usize = prefix.unicode_len();
    let len: usize = message.unicode_len();
    if len < n {
        return false;
    }
    let mut i: usize = 0;
    while i < n
        invariant
            i <= n,
            n == prefix@.len(),
            prefix@ == "missing field: "@,
            n <= message@.len(),
            forall|j: int| 0 <= j < i ==> message@[j] == prefix@[j],
        decreases n - i,
    {
        if message.get_char(i) != prefix.get_char(i) {
            assert(!is_missing_field(message@)) by {
                if is_missing_field(message@) {
                    let cut = message@.subrange(0, prefix@.len() as int);
                    assert(prefix@ == cut);
                    assert(cut[i as int] == message@[i as int]);
                }
            }
            return false;
        }
        i += 1;
    }
    assert(prefix@ =~= message@.subrange(0, n as int));
    true
}

/// Turns the outcome of decoding the captured path segments into the
/// handler's parameters or a client error. A segment that does not convert to
/// its parameter's type is the client's mistake. A missing field is not: the
/// routes are checked against the handlers' parameters when they are
/// registered, so such an outcome is never handed in.
pub fn http_extract_path_params<T>(decoded: Result<T, String>) -> (r: Result<T, BodyError>)
    requires
        decoded is Err ==> !is_missing_field(decoded->Err_0@),
    ensures
        match decoded {
            Ok(v) => r is Ok && r->Ok_0 == v,
            Err(message) => r is Err && r->Err_0@ == (BodyErrorView::PathParamType {
                message: message@,
            }),
        },
{
    match decoded {
        Ok(v) => Ok(v),
        Err(message) => Err(BodyError::PathParamType { message }),
    }
}

} // verus!
