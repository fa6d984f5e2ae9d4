//! Syntactic validation of account identifiers.
//!
//! An account identifier is a sequence of 2 to 64 characters drawn from
//! lowercase ASCII letters, digits and the separators `-`, `_` and `.`;
//! it neither starts nor ends with a separator, and no two separators are
//! adjacent.

use vstd::prelude::*;
use vstd::string::StrSliceExecFns;

verus! {

/// A character allowed anywhere in an account identifier: a lowercase ASCII
/// letter or a digit.
pub open spec fn is_name_char(c: char) -> bool {
    ('a' <= c && c <= 'z') || ('0' <= c && c <= '9')
}

/// A separator character: allowed only strictly between name characters.
pub open spec fn is_separator(c: char) -> bool {
    c == '-' || c == '_' || c == '.'
}

/// What it means for a character sequence to be a valid account identifier.
pub open spec fn valid_account_id(s: Seq<char>) -> bool {
    &&& 2 <= s.len() <= 64
    &&& forall|i: int| 0 <= i < s.len() ==> is_name_char(#[trigger] s[i]) || is_separator(s[i])
    &&& forall|i: int| 0 < i < s.len() ==> !(is_separator(s[i - 1]) && #[trigger] is_separator(s[i]))
    &&& !is_separator(s[0])
    &&& !is_separator(s[s.len() - 1])
}

/// Decides whether `id` is a syntactically valid account identifier.
pub fn is_valid_account_id(id: &str) -> (b: bool)
    ensures
        b == valid_account_id(id@),
{
    let n = id.unicode_len();
    if n < 2 || n > 64 {
        return false;
    }
    let mut i: usize = 0;
    let mut prev_sep: bool = true;
    while i < n
        invariant
            2 <= n <= 64,
            n == id@.len(),
            0 <= i <= n,
            forall|j: int| 0 <= j < i ==> is_name_char(#[trigger] id@[j]) || is_separator(id@[j]),
            forall|j: int| 0 < j < i ==> !(is_separator(id@[j - 1]) && #[trigger] is_separator(id@[j])),
            i > 0 ==> !is_separator(id@[0]),
            prev_sep == if i == 0 { true } else { is_separator(id@[i - 1]) },
        decreases n - i,
    {
        let c = id.get_char(i);
        let sep = c == '-' || c == '_' || c == '.';
        let name = ('a' <= c && c <= 'z') || ('0' <= c && c <= '9');
        if !name && !sep {
            return false;
        }
        if sep && prev_sep {
            return false;
        }
        prev_sep = sep;
        i = i + 1;
    }
    !prev_sep
}

} // verus!
