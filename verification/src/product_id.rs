//! Product identifiers of the document store as they appear in a request
//! path.

use vstd::prelude::*;
use crate::text::{char_is_ascii_alphanumeric, is_ascii_alphanumeric};

verus! {

/// Whether a text can be a product identifier: it holds ASCII letters and
/// digits and nothing else.
pub open spec fn all_alphanumeric(text: Seq<char>) -> bool {
    forall|i: int| 0 <= i < text.len() ==> is_ascii_alphanumeric(#[trigger] text[i])
}

/// A path segment that has the form of a product identifier.
#[derive(Clone, Copy, Debug, PartialEq, Eq)]
pub struct ProductId<'a>(&'a str);

impl<'a> ProductId<'a> {
    /// The text of the identifier.
    pub closed spec fn spec_inner(self) -> Seq<char> {
        self.0@
    }

    /// Accepts a path segment as a product identifier if it holds ASCII
    /// letters and digits only, and hands it back otherwise.
    pub fn from_param(param: &'a str) -> (out: Result<ProductId<'a>, &'a str>)
        ensures
            match out {
                Ok(id) => all_alphanumeric(param@) && id.spec_inner() == param@,
                Err(given) => !all_alphanumeric(param@) && given@ == param@,
            },
    {
        let n: usize = param.unicode_len();
        let mut i: usize = 0;
        while i < n
            invariant
                n == param@.len(),
                i <= n,
                forall|k: int| 0 <= k < i ==> is_ascii_alphanumeric(#[trigger] param@[k]),
            decreases n - i,
        {
            if !char_is_ascii_alphanumeric(param.get_char(i)) {
                return Err(param);
            }
            i += 1;
        }
        Ok(ProductId(param))
    }

    /// The text of the identifier.
    pub fn inner(self) -> (text: &'a str)
        ensures
            text@ == self.spec_inner(),
    {
        self.0
    }
}

} // verus!
