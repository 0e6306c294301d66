//! Trimming text as the standard library does.
use vstd::prelude::*;

verus! {

/// Whether `c` has the Unicode property White_Space, the set that
/// `char::is_whitespace` tests for.
pub open spec fn is_white_space(c: char) -> bool {
    let n = c as int;
    ||| 0x9 <= n <= 0xd
    ||| n == 0x20
    ||| n == 0x85
    ||| n == 0xa0
    ||| n == 0x1680
    ||| 0x2000 <= n <= 0x200a
    ||| n == 0x2028
    ||| n == 0x2029
    ||| n == 0x202f
    ||| n == 0x205f
    ||| n == 0x3000
}

/// `s` without its leading white space.
pub open spec fn trim_start(s: Seq<char>) -> Seq<char>
    decreases s.len(),
{
    if s.len() > 0 && is_white_space(s[0]) {
        trim_start(s.drop_first())
    } else {
        s
    }
}

/// `s` without its trailing white space.
pub open spec fn trim_end(s: Seq<char>) -> Seq<char>
    decreases s.len(),
{
    if s.len() > 0 && is_white_space(s.last()) {
        trim_end(s.drop_last())
    } else {
        s
    }
}

/// `s` without its leading and trailing white space.
pub open spec fn trimmed(s: Seq<char>) -> Seq<char> {
    trim_end(trim_start(s))
}

/// Whether `c` is white space, as `is_white_space` says.
fn white_space(c: char) -> (b: bool)
    ensures
        b == is_white_space(c),
{
    let n = c as u32;
    (0x9 <= n && n <= 0xd) || n == 0x20 || n == 0x85 || n == 0xa0 || n == 0x1680 || (0x2000 <= n && n <= 0x200a)
        || n == 0x2028 || n == 0x2029 || n == 0x202f || n == 0x205f || n == 0x3000
}

/// The text with leading and trailing white space removed, white space
/// being what `char::is_whitespace` accepts, as `str::trim` does.
pub(crate) fn trim(s: &str) -> (r: &str)
    ensures
        r@ == trimmed(s@),
{
    let len = s.unicode_len();
    let mut start: usize = 0;
    assert(s@.subrange(0, len as int) =~= s@);
    while start < len && white_space(s.get_char(start))
        invariant
            len == s@.len(),
            start <= len,
            trim_start(s@) == trim_start(s@.subrange(start as int, len as int)),
        decreases len - start,
    {
        let ghost rest = s@.subrange(start as int, len as int);
        assert(rest.drop_first() =~= s@.subrange(start + 1, len as int));
        start = start + 1;
    }
    let ghost front = s@.subrange(start as int, len as int);
    assert(trim_start(s@) == front) by {
        if start < len {
            assert(front[0] == s@[start as int]);
        } else {
            assert(front.len() == 0);
        }
    }
    let mut end: usize = len;
    while end > start && white_space(s.get_char(end - 1))
        invariant
            len == s@.len(),
            start <= end <= len,
            front == s@.subrange(start as int, len as int),
            trim_end(front) == trim_end(s@.subrange(start as int, end as int)),
        decreases end - start,
    {
        let ghost part = s@.subrange(start as int, end as int);
        assert(part.last() == s@[end - 1]);
        assert(part.drop_last() =~= s@.subrange(start as int, end - 1));
        end = end - 1;
    }
    let r = s.substring_char(start, end);
    proof {
        let part = s@.subrange(start as int, end as int);
        if end > start {
            assert(part.last() == s@[end - 1]);
        } else {
            assert(part.len() == 0);
        }
        assert(trim_end(part) == part);
    }
    r
}

} // verus!
