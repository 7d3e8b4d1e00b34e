//! Whitespace, and the trimming of a keyword before it goes to the search
//! service.

use vstd::prelude::*;

verus! {

/// The characters that count as whitespace: those with the Unicode property
/// `White_Space`.
pub open spec fn is_white_space(c: char) -> bool {
    let n = c as u32;
    ||| 0x09 <= n <= 0x0D
    ||| n == 0x20
    ||| n == 0x85
    ||| n == 0xA0
    ||| n == 0x1680
    ||| 0x2000 <= n <= 0x200A
    ||| n == 0x2028
    ||| n == 0x2029
    ||| n == 0x202F
    ||| n == 0x205F
    ||| n == 0x3000
}

/// `s` without the whitespace it starts with.
pub open spec fn trim_start(s: Seq<char>) -> Seq<char>
    decreases s.len(),
{
    if s.len() > 0 && is_white_space(s.first()) {
        trim_start(s.drop_first())
    } else {
        s
    }
}

/// `s` without the whitespace it ends with.
pub open spec fn trim_end(s: Seq<char>) -> Seq<char>
    decreases s.len(),
{
    if s.len() > 0 && is_white_space(s.last()) {
        trim_end(s.drop_last())
    } else {
        s
    }
}

/// `s` without the whitespace at either end. Whitespace between other
/// characters stays.
pub open spec fn trimmed(s: Seq<char>) -> Seq<char> {
    trim_end(trim_start(s))
}

/// Whether `c` is whitespace.
pub fn is_whitespace(c: char) -> (b: bool)
    ensures
        b == is_white_space(c),
{
    let n: u32 = c as u32;
    (0x09 <= n && n <= 0x0D) || n == 0x20 || n == 0x85 || n == 0xA0 || n == 0x1680 || (0x2000 <= n
        && n <= 0x200A) || n == 0x2028 || n == 0x2029 || n == 0x202F || n == 0x205F || n == 0x3000
}

/// Where the first `k` characters are whitespace and the next one, if there
/// is one, is not, trimming the start removes exactly those `k`.
proof fn lemma_trim_start_at(s: Seq<char>, k: int)
    requires
        0 <= k <= s.len(),
        forall|j: int| 0 <= j < k ==> is_white_space(#[trigger] s[j]),
        k < s.len() ==> !is_white_space(s[k]),
    ensures
        trim_start(s) == s.subrange(k, s.len() as int),
    decreases k,
{
    if k == 0 {
        assert(s.subrange(0, s.len() as int) =~= s);
    } else {
        let rest = s.drop_first();
        assert forall|j: int| 0 <= j < k - 1 implies is_white_space(#[trigger] rest[j]) by {
            assert(rest[j] == s[j + 1]);
        }
        lemma_trim_start_at(rest, k - 1);
        assert(rest.subrange(k - 1, rest.len() as int) =~= s.subrange(k, s.len() as int));
    }
}

/// Where everything from position `k` on is whitespace and the character
/// before it, if there is one, is not, trimming the end keeps exactly the
/// first `k`.
proof fn lemma_trim_end_at(s: Seq<char>, k: int)
    requires
        0 <= k <= s.len(),
        forall|j: int| k <= j < s.len() ==> is_white_space(#[trigger] s[j]),
        k > 0 ==> !is_white_space(s[k - 1]),
    ensures
        trim_end(s) == s.subrange(0, k),
    decreases s.len() - k,
{
    if k == s.len() {
        assert(s.subrange(0, k) =~= s);
    } else {
        let rest = s.drop_last();
        assert forall|j: int| k <= j < rest.len() implies is_white_space(#[trigger] rest[j]) by {
            assert(rest[j] == s[j]);
        }
        lemma_trim_end_at(rest, k);
        assert(rest.subrange(0, k) =~= s.subrange(0, k));
    }
}

/// The trimmed text is the stretch between the first and the last character
/// that is not whitespace; it is empty where there is no such character.
pub proof fn lemma_trimmed_is_subrange(s: Seq<char>, start: int, end: int)
    requires
        0 <= start <= end <= s.len(),
        forall|j: int| 0 <= j < start ==> is_white_space(#[trigger] s[j]),
        forall|j: int| end <= j < s.len() ==> is_white_space(#[trigger] s[j]),
        start < end ==> !is_white_space(s[start]) && !is_white_space(s[end - 1]),
    ensures
        trimmed(s) == s.subrange(start, end),
{
    if start < end {
        lemma_trim_start_at(s, start);
        let tail = s.subrange(start, s.len() as int);
        assert forall|j: int| end - start <= j < tail.len() implies is_white_space(
            #[trigger] tail[j],
        ) by {
            assert(tail[j] == s[start + j]);
        }
        assert(tail[end - start - 1] == s[end - 1]);
        lemma_trim_end_at(tail, end - start);
        assert(tail.subrange(0, end - start) =~= s.subrange(start, end));
    } else {
        // Nothing but whitespace: trimming the start leaves nothing.
        lemma_trim_start_at(s, s.len() as int);
        let none = s.subrange(s.len() as int, s.len() as int);
        assert(trim_end(none) == none);
        assert(none =~= s.subrange(start, end));
    }
}

/// The stretch of `s` that is left when the whitespace at either end is
/// taken away.
pub fn trim(s: &str) -> (t: &str)
    ensures
        t@ == trimmed(s@),
{
    let len = s.unicode_len();
    // `start..end` spans from the first character that is not whitespace to
    // the last one seen so far; it is `0..0` until one is seen.
    let mut start: usize = 0;
    let mut end: usize = 0;
    let mut i: usize = 0;
    for c in chars: s.chars()
        invariant
            len == s@.len(),
            chars.seq() == s@,
            i == chars.index(),
            start <= end <= i <= len,
            start == end ==> start == 0,
            start < end ==> !is_white_space(s@[start as int]) && !is_white_space(s@[end - 1]),
            forall|j: int| 0 <= j < start ==> is_white_space(#[trigger] s@[j]),
            forall|j: int| end <= j < i ==> is_white_space(#[trigger] s@[j]),
    {
        if !is_whitespace(c) {
            if start == end {
                start = i;
            }
            end = i + 1;
        }
        i += 1;
    }
    proof {
        lemma_trimmed_is_subrange(s@, start as int, end as int);
    }
    s.substring_char(start, end)
}

} // verus!
