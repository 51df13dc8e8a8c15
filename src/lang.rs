//! Script classification of a query word.

use vstd::prelude::*;

verus! {

/// Whether `c` lies in the CJK Unified Ideographs block (U+4E00 to U+9FFF).
pub open spec fn is_cjk_char(c: char) -> bool {
    0x4E00 <= (c as u32) && (c as u32) <= 0x9FFF
}

/// Whether some character of `s` is a CJK unified ideograph.
pub open spec fn has_cjk(s: Seq<char>) -> bool {
    exists|i: int| 0 <= i < s.len() && is_cjk_char(#[trigger] s[i])
}

/// Tells whether a word is written in Chinese: true as soon as one of its
/// characters is a CJK unified ideograph; false for the empty word.
pub fn is_chinese(word: &str) -> (r: bool)
    ensures
        r == has_cjk(word@),
{
    let n = word.unicode_len();
    let mut i: usize = 0;
    while i < n
        invariant
            n == word@.len(),
            i <= n,
            forall|j: int| 0 <= j < i ==> !is_cjk_char(#[trigger] word@[j]),
        decreases n - i,
    {
        let c = word.get_char(i);
        let code = c as u32;
        if 0x4E00 <= code && code <= 0x9FFF {
            return true;
        }
        i = i + 1;
    }
    false
}

} // verus!
