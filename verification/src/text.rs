//! Leading-whitespace stripping for here-document lines.

use vstd::prelude::*;

verus! {

/// Whether `c` is whitespace: the Unicode `White_Space` characters.
pub open spec fn is_blank(c: char) -> bool {
    let n = c as u32;
    ||| n == 0x20
    ||| (0x09 <= n && n <= 0x0d)
    ||| n == 0x85
    ||| n == 0xa0
    ||| n == 0x1680
    ||| (0x2000 <= n && n <= 0x200a)
    ||| n == 0x2028
    ||| n == 0x2029
    ||| n == 0x202f
    ||| n == 0x205f
    ||| n == 0x3000
}

/// Decides whether `c` is whitespace.
pub fn char_is_blank(c: char) -> (r: bool)
    ensures
        r == is_blank(c),
{
    let n = c as u32;
    n == 0x20 || (0x09 <= n && n <= 0x0d) || n == 0x85 || n == 0xa0 || n == 0x1680 || (0x2000 <= n
        && n <= 0x200a) || n == 0x2028 || n == 0x2029 || n == 0x202f || n == 0x205f || n == 0x3000
}

/// `s` with its leading whitespace removed.
pub open spec fn strip_leading(s: Seq<char>) -> Seq<char>
    decreases s.len(),
{
    if s.len() > 0 && is_blank(s[0]) {
        strip_leading(s.drop_first())
    } else {
        s
    }
}

/// If the first `i` characters of `s` are whitespace and the next one is
/// not (or there is none), stripping removes exactly those `i` characters.
pub proof fn lemma_strip_prefix(s: Seq<char>, i: int)
    requires
        0 <= i <= s.len(),
        forall|j: int| 0 <= j < i ==> is_blank(s[j]),
        i == s.len() || !is_blank(s[i]),
    ensures
        strip_leading(s) == s.subrange(i, s.len() as int),
    decreases i,
{
    if i == 0 {
        assert(s.subrange(0, s.len() as int) =~= s);
    } else {
        assert(is_blank(s[0]));
        lemma_strip_prefix(s.drop_first(), i - 1);
        assert(s.drop_first().subrange(i - 1, s.drop_first().len() as int) =~= s.subrange(
            i,
            s.len() as int,
        ));
    }
}

/// Stripping leading whitespace twice is the same as stripping it once.
pub proof fn lemma_strip_idempotent(s: Seq<char>)
    ensures
        strip_leading(strip_leading(s)) == strip_leading(s),
    decreases s.len(),
{
    if s.len() > 0 && is_blank(s[0]) {
        lemma_strip_idempotent(s.drop_first());
    }
}

/// Removes the leading whitespace of a line.
pub fn strip_line(s: &str) -> (r: String)
    ensures
        r@ == strip_leading(s@),
{
    let len: usize = s.unicode_len();
    let mut i: usize = 0;
    while i < len && char_is_blank(s.get_char(i))
        invariant
            i <= len,
            len == s@.len(),
            forall|j: int| 0 <= j < i ==> is_blank(s@[j]),
        decreases len - i,
    {
        i = i + 1;
    }
    proof {
        lemma_strip_prefix(s@, i as int);
    }
    s.substring_char(i, len).to_owned()
}

} // verus!
