//! Character-level helpers shared by the line-oriented text utilities:
//! appending to a string, and the control and whitespace classes.

use vstd::prelude::*;
use vstd::string::StrSliceExecFns;

verus! {

/// Relies on String::push: appends exactly one character at the end.
#[verifier::external_body]
pub(crate) fn push_char(s: &mut String, c: char)
    ensures
        final(s)@ == old(s)@.push(c),
{
    s.push(c);
}

/// The control characters: the C0 range below space, delete, and the C1
/// range.
pub open spec fn is_ctl(c: char) -> bool {
    (c as u32) < 32 || (127 <= (c as u32) && (c as u32) <= 159)
}

/// Whether `c` is a control character.
pub fn is_control_char(c: char) -> (r: bool)
    ensures
        r == is_ctl(c),
{
    let b: u32 = c as u32;
    b < 32 || (127 <= b && b <= 159)
}

/// The whitespace characters: the White_Space class.
pub open spec fn is_space(c: char) -> bool {
    let b = c as u32;
    b == 9 || b == 10 || b == 11 || b == 12 || b == 13 || b == 32 || b == 0x85 || b == 0xA0
        || b == 0x1680 || (0x2000 <= b && b <= 0x200A) || b == 0x2028 || b == 0x2029 || b == 0x202F
        || b == 0x205F || b == 0x3000
}

/// Whether `c` is whitespace.
pub fn is_space_char(c: char) -> (r: bool)
    ensures
        r == is_space(c),
{
    let b: u32 = c as u32;
    b == 9 || b == 10 || b == 11 || b == 12 || b == 13 || b == 32 || b == 0x85 || b == 0xA0 || b
        == 0x1680 || (0x2000 <= b && b <= 0x200A) || b == 0x2028 || b == 0x2029 || b == 0x202F || b
        == 0x205F || b == 0x3000
}

/// A line is blank when every character is whitespace: exactly when
/// trimming leaves nothing.
pub open spec fn is_blank(s: Seq<char>) -> bool {
    forall|i: int| 0 <= i < s.len() ==> is_space(s[i])
}

/// Whether the line consists of whitespace alone.
pub fn blank_line(s: &str) -> (r: bool)
    ensures
        r == is_blank(s@),
{
    let n = s.unicode_len();
    let mut i: usize = 0;
    while i < n
        invariant
            n == s@.len(),
            i <= n,
            forall|j: int| 0 <= j < i ==> is_space(s@[j]),
        decreases n - i,
    {
        if !is_space_char(s.get_char(i)) {
            return false;
        }
        i += 1;
    }
    true
}

} // verus!
