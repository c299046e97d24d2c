//! Character-level text helpers: the Unicode whitespace predicate and a
//! verified trim over it.

use vstd::prelude::*;
use vstd::string::StrSliceExecFns;

verus! {

/// The Unicode `White_Space` code points, the set that trimming removes
/// from both ends of a raw name.
pub open spec fn is_ws(c: char) -> bool {
    let u = c as u32;
    u == 0x20 || (0x09 <= u && u <= 0x0D) || u == 0x85 || u == 0xA0 || u == 0x1680 || (0x2000 <= u
        && u <= 0x200A) || u == 0x2028 || u == 0x2029 || u == 0x202F || u == 0x205F || u == 0x3000
}

/// Decides membership in the whitespace set.
pub fn ws_char(c: char) -> (r: bool)
    ensures
        r == is_ws(c),
{
    let u = c as u32;
    u == 0x20 || (0x09 <= u && u <= 0x0D) || u == 0x85 || u == 0xA0 || u == 0x1680 || (0x2000 <= u
        && u <= 0x200A) || u == 0x2028 || u == 0x2029 || u == 0x202F || u == 0x205F || u == 0x3000
}

/// The sequence with its leading whitespace removed.
pub open spec fn drop_leading_ws(s: Seq<char>) -> Seq<char>
    decreases s.len(),
{
    if s.len() > 0 && is_ws(s.first()) {
        drop_leading_ws(s.drop_first())
    } else {
        s
    }
}

/// The sequence with its trailing whitespace removed.
pub open spec fn drop_trailing_ws(s: Seq<char>) -> Seq<char>
    decreases s.len(),
{
    if s.len() > 0 && is_ws(s.last()) {
        drop_trailing_ws(s.drop_last())
    } else {
        s
    }
}

/// The sequence with whitespace removed from both ends.
pub open spec fn trim_spec(s: Seq<char>) -> Seq<char> {
    drop_trailing_ws(drop_leading_ws(s))
}

/// If the first `k` characters are whitespace and the one at `k` (if any) is
/// not, dropping leading whitespace keeps exactly the suffix from `k`.
proof fn lemma_drop_leading_ws_at(s: Seq<char>, k: int)
    requires
        0 <= k <= s.len(),
        forall|j: int| 0 <= j < k ==> is_ws(s[j]),
        k == s.len() || !is_ws(s[k]),
    ensures
        drop_leading_ws(s) == s.subrange(k, s.len() as int),
    decreases k,
{
    if k == 0 {
        assert(s =~= s.subrange(0, s.len() as int));
    } else {
        assert(is_ws(s.first()));
        lemma_drop_leading_ws_at(s.drop_first(), k - 1);
        assert(s.drop_first().subrange(k - 1, s.drop_first().len() as int) =~= s.subrange(
            k,
            s.len() as int,
        ));
    }
}

/// If the characters from `k` on are whitespace and the one before `k` (if
/// any) is not, dropping trailing whitespace keeps exactly the prefix up to
/// `k`.
proof fn lemma_drop_trailing_ws_at(s: Seq<char>, k: int)
    requires
        0 <= k <= s.len(),
        forall|j: int| k <= j < s.len() ==> is_ws(s[j]),
        k == 0 || !is_ws(s[k - 1]),
    ensures
        drop_trailing_ws(s) == s.subrange(0, k),
    decreases s.len(),
{
    if k == s.len() {
        assert(s =~= s.subrange(0, k));
    } else {
        assert(is_ws(s.last()));
        lemma_drop_trailing_ws_at(s.drop_last(), k);
        assert(s.drop_last().subrange(0, k) =~= s.subrange(0, k));
    }
}

/// A nonempty trimmed sequence starts with a non-whitespace character.
pub proof fn lemma_drop_leading_ws_first(s: Seq<char>)
    ensures
        drop_leading_ws(s).len() > 0 ==> !is_ws(drop_leading_ws(s).first()),
    decreases s.len(),
{
    if s.len() > 0 && is_ws(s.first()) {
        lemma_drop_leading_ws_first(s.drop_first());
    }
}

/// Dropping trailing whitespace keeps a prefix of the input.
pub proof fn lemma_drop_trailing_ws_prefix(s: Seq<char>)
    ensures
        drop_trailing_ws(s).len() <= s.len(),
        forall|j: int|
            0 <= j < drop_trailing_ws(s).len() ==> drop_trailing_ws(s)[j] == s[j],
        drop_trailing_ws(s).len() > 0 ==> !is_ws(drop_trailing_ws(s).last()),
    decreases s.len(),
{
    if s.len() > 0 && is_ws(s.last()) {
        lemma_drop_trailing_ws_prefix(s.drop_last());
        assert(forall|j: int|
            0 <= j < s.drop_last().len() ==> s.drop_last()[j] == s[j]);
    }
}

/// A nonempty fully trimmed sequence has non-whitespace characters at both
/// ends.
pub proof fn lemma_trim_spec_ends(s: Seq<char>)
    ensures
        trim_spec(s).len() > 0 ==> !is_ws(trim_spec(s).first()) && !is_ws(trim_spec(s).last()),
{
    lemma_drop_leading_ws_first(s);
    lemma_drop_trailing_ws_prefix(drop_leading_ws(s));
}

/// Trimming removes only whitespace: every non-whitespace character of the
/// input survives into the trimmed sequence.
pub proof fn lemma_trim_spec_keeps(s: Seq<char>, c: char)
    requires
        !is_ws(c),
        s.contains(c),
    ensures
        trim_spec(s).contains(c),
{
    lemma_drop_leading_ws_keeps(s, c);
    lemma_drop_trailing_ws_keeps(drop_leading_ws(s), c);
}

proof fn lemma_drop_leading_ws_keeps(s: Seq<char>, c: char)
    requires
        !is_ws(c),
        s.contains(c),
    ensures
        drop_leading_ws(s).contains(c),
    decreases s.len(),
{
    if s.len() > 0 && is_ws(s.first()) {
        let i = choose|i: int| 0 <= i < s.len() && s[i] == c;
        assert(i != 0);
        assert(s.drop_first()[i - 1] == c);
        lemma_drop_leading_ws_keeps(s.drop_first(), c);
    }
}

proof fn lemma_drop_trailing_ws_keeps(s: Seq<char>, c: char)
    requires
        !is_ws(c),
        s.contains(c),
    ensures
        drop_trailing_ws(s).contains(c),
    decreases s.len(),
{
    if s.len() > 0 && is_ws(s.last()) {
        let i = choose|i: int| 0 <= i < s.len() && s[i] == c;
        assert(i != s.len() - 1);
        assert(s.drop_last()[i] == c);
        lemma_drop_trailing_ws_keeps(s.drop_last(), c);
    }
}

/// Removes leading and trailing whitespace.
pub fn trim(s: &str) -> (r: &str)
    ensures
        r@ == trim_spec(s@),
{
    let n = s.unicode_len();
    let mut start: usize = 0;
    while start < n && ws_char(s.get_char(start))
        invariant
            n == s@.len(),
            start <= n,
            forall|j: int| 0 <= j < start ==> is_ws(s@[j]),
        decreases n - start,
    {
        start += 1;
    }
    proof {
        lemma_drop_leading_ws_at(s@, start as int);
    }
    let ghost lead = s@.subrange(start as int, n as int);
    let mut end: usize = n;
    while end > start && ws_char(s.get_char(end - 1))
        invariant
            n == s@.len(),
            start <= end <= n,
            forall|j: int| end <= j < n ==> is_ws(s@[j]),
        decreases end,
    {
        end -= 1;
    }
    proof {
        lemma_drop_trailing_ws_at(lead, end - start);
        assert(lead.subrange(0, end - start) =~= s@.subrange(start as int, end as int));
    }
    s.substring_char(start, end)
}

} // verus!
