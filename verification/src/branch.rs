//! The branch that a shell command prints.

use vstd::prelude::*;
#[allow(unused_imports)]
use vstd::utf8::{decode_utf8, valid_utf8};

verus! {

/// Whether a character is white space in Unicode.
pub open spec fn is_white(c: char) -> bool {
    let u = c as u32;
    ||| 0x9 <= u <= 0xd
    ||| u == 0x20 || u == 0x85 || u == 0xa0 || u == 0x1680
    ||| 0x2000 <= u <= 0x200a
    ||| u == 0x2028 || u == 0x2029 || u == 0x202f || u == 0x205f || u == 0x3000
}

/// Whether `trimmed` is what is left of `text` without the white space at its two ends.
pub open spec fn is_trimmed(text: Seq<char>, trimmed: Seq<char>) -> bool {
    exists|from: int, to: int|
        {
            &&& 0 <= from <= to <= text.len()
            &&& trimmed == #[trigger] text.subrange(from, to)
            &&& forall|i: int| 0 <= i < from || to <= i < text.len() ==> is_white(#[trigger] text[i])
            &&& from < to ==> !is_white(text[from]) && !is_white(text[to - 1])
        }
}

fn white(c: char) -> (white: bool)
    ensures
        white == is_white(c),
{
    let u: u32 = c as u32;
    (0x9 <= u && u <= 0xd) || u == 0x20 || u == 0x85 || u == 0xa0 || u == 0x1680 || (0x2000 <= u
        && u <= 0x200a) || u == 0x2028 || u == 0x2029 || u == 0x202f || u == 0x205f || u == 0x3000
}

/// Cuts the white space off the two ends of a text.
pub fn trim_text(text: &str) -> (trimmed: String)
    ensures
        is_trimmed(text@, trimmed@),
{
    let len = text.unicode_len();
    let mut from: usize = 0;
    while from < len && white(text.get_char(from))
        invariant
            from <= len,
            len == text@.len(),
            forall|i: int| 0 <= i < from ==> is_white(#[trigger] text@[i]),
        decreases len - from,
    {
        from += 1;
    }
    let mut to: usize = len;
    while to > from && white(text.get_char(to - 1))
        invariant
            from <= to <= len,
            len == text@.len(),
            forall|i: int| to <= i < len ==> is_white(#[trigger] text@[i]),
        decreases to,
    {
        to -= 1;
    }
    assert(from < to ==> !is_white(text@[from as int]));
    text.substring_char(from, to).to_owned()
}

/// What `String::from_utf8_lossy` makes of bytes.
pub uninterp spec fn lossy_text(bytes: Seq<u8>) -> Seq<char>;

/// Reads bytes as a text: `String::from_utf8_lossy`. The text is a function of the bytes
/// alone; the claim is that bytes that are the UTF-8 form of a text give that text.
#[verifier::external_body]
fn read_lossy(bytes: &[u8]) -> (text: String)
    ensures
        text@ == lossy_text(bytes@),
        valid_utf8(bytes@) ==> text@ == decode_utf8(bytes@),
{
    String::from_utf8_lossy(bytes).into_owned()
}

/// The branch that a command has printed.
pub fn remote_branch(output: &[u8]) -> (branch: String)
    ensures
        is_trimmed(lossy_text(output@), branch@),
        valid_utf8(output@) ==> is_trimmed(decode_utf8(output@), branch@),
{
    trim_text(read_lossy(output).as_str())
}

proof fn same_trim(text: Seq<char>, a: Seq<char>, b: Seq<char>, i: int, j: int, m: int, n: int)
    requires
        0 <= i <= j <= text.len(),
        a == text.subrange(i, j),
        forall|k: int| 0 <= k < i || j <= k < text.len() ==> is_white(#[trigger] text[k]),
        i < j ==> !is_white(text[i]) && !is_white(text[j - 1]),
        0 <= m <= n <= text.len(),
        b == text.subrange(m, n),
        forall|k: int| 0 <= k < m || n <= k < text.len() ==> is_white(#[trigger] text[k]),
        m < n ==> !is_white(text[m]) && !is_white(text[n - 1]),
    ensures
        a == b,
{
    if i < j {
        assert(is_white(text[i]) || m <= i < n);
        assert(is_white(text[j - 1]) || m <= j - 1 < n);
        assert(is_white(text[m]) || i <= m < j);
        assert(is_white(text[n - 1]) || i <= n - 1 < j);
        assert(i == m && j == n);
    } else if m < n {
        assert(is_white(text[m]));
    }
    assert(a =~= b);
}

/// A text has one trimmed form.
pub proof fn one_trimmed_form(text: Seq<char>, a: Seq<char>, b: Seq<char>)
    requires
        is_trimmed(text, a),
        is_trimmed(text, b),
    ensures
        a == b,
{
    let (i, j) = choose|from: int, to: int|
        {
            &&& 0 <= from <= to <= text.len()
            &&& a == #[trigger] text.subrange(from, to)
            &&& forall|i: int| 0 <= i < from || to <= i < text.len() ==> is_white(#[trigger] text[i])
            &&& from < to ==> !is_white(text[from]) && !is_white(text[to - 1])
        };
    let (m, n) = choose|from: int, to: int|
        {
            &&& 0 <= from <= to <= text.len()
            &&& b == #[trigger] text.subrange(from, to)
            &&& forall|i: int| 0 <= i < from || to <= i < text.len() ==> is_white(#[trigger] text[i])
            &&& from < to ==> !is_white(text[from]) && !is_white(text[to - 1])
        };
    same_trim(text, a, b, i, j, m, n);
}

} // verus!
