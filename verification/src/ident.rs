//! Whitespace trimming of user-supplied identifiers.
//!
//! Devices and drivers are looked up by an identifier the user typed, with
//! leading and trailing whitespace removed before any comparison.

use vstd::prelude::*;

verus! {

/// The whitespace characters stripped from the ends of an identifier.
pub open spec fn is_space(c: char) -> bool {
    c == ' ' || c == '\t' || c == '\n' || c == '\r' || c == '\u{000B}' || c == '\u{000C}'
}

/// `s` with its leading whitespace removed.
pub open spec fn trim_start(s: Seq<char>) -> Seq<char>
    decreases s.len(),
{
    if s.len() > 0 && is_space(s[0]) {
        trim_start(s.drop_first())
    } else {
        s
    }
}

/// `s` with its trailing whitespace removed.
pub open spec fn trim_end(s: Seq<char>) -> Seq<char>
    decreases s.len(),
{
    if s.len() > 0 && is_space(s.last()) {
        trim_end(s.drop_last())
    } else {
        s
    }
}

/// `s` with both leading and trailing whitespace removed.
pub open spec fn trimmed(s: Seq<char>) -> Seq<char> {
    trim_end(trim_start(s))
}

/// If everything before position `i` is whitespace and position `i` (when it
/// exists) is not, then trimming the front keeps exactly the suffix from `i`.
proof fn lemma_trim_start_at(s: Seq<char>, i: int)
    requires
        0 <= i <= s.len(),
        forall|k: int| 0 <= k < i ==> is_space(s[k]),
        i < s.len() ==> !is_space(s[i]),
    ensures
        trim_start(s) == s.subrange(i, s.len() as int),
    decreases i,
{
    if i == 0 {
        assert(s.subrange(0, s.len() as int) =~= s);
    } else {
        lemma_trim_start_at(s.drop_first(), i - 1);
        assert(s.drop_first().subrange(i - 1, s.drop_first().len() as int) =~= s.subrange(
            i,
            s.len() as int,
        ));
    }
}

/// If everything from position `j` on is whitespace and position `j - 1`
/// (when it exists) is not, then trimming the back keeps exactly the prefix
/// up to `j`.
proof fn lemma_trim_end_at(s: Seq<char>, j: int)
    requires
        0 <= j <= s.len(),
        forall|k: int| j <= k < s.len() ==> is_space(s[k]),
        j > 0 ==> !is_space(s[j - 1]),
    ensures
        trim_end(s) == s.subrange(0, j),
    decreases s.len(),
{
    if j == s.len() {
        if s.len() > 0 {
            assert(!is_space(s.last()));
        }
        assert(s.subrange(0, s.len() as int) =~= s);
    } else {
        assert(is_space(s.last()));
        lemma_trim_end_at(s.drop_last(), j);
        assert(s.drop_last().subrange(0, j) =~= s.subrange(0, j));
    }
}

/// Every character of `s` is whitespace.
pub open spec fn all_space(s: Seq<char>) -> bool {
    forall|k: int| 0 <= k < s.len() ==> is_space(s[k])
}

/// Trimming the front walks over any all-whitespace prefix.
proof fn lemma_trim_start_skips_spaces(pad: Seq<char>, s: Seq<char>)
    requires
        all_space(pad),
    ensures
        trim_start(pad + s) == trim_start(s),
    decreases pad.len(),
{
    if pad.len() == 0 {
        assert(pad + s =~= s);
    } else {
        assert(is_space((pad + s)[0]));
        assert((pad + s).drop_first() =~= pad.drop_first() + s);
        assert forall|k: int| 0 <= k < pad.drop_first().len() implies is_space(
            pad.drop_first()[k],
        ) by {
            assert(pad.drop_first()[k] == pad[k + 1]);
        }
        lemma_trim_start_skips_spaces(pad.drop_first(), s);
    }
}

/// Trimming the back walks over any all-whitespace suffix.
proof fn lemma_trim_end_skips_spaces(s: Seq<char>, pad: Seq<char>)
    requires
        all_space(pad),
    ensures
        trim_end(s + pad) == trim_end(s),
    decreases pad.len(),
{
    if pad.len() == 0 {
        assert(s + pad =~= s);
    } else {
        assert(is_space((s + pad).last()));
        assert((s + pad).drop_last() =~= s + pad.drop_last());
        assert forall|k: int| 0 <= k < pad.drop_last().len() implies is_space(
            pad.drop_last()[k],
        ) by {
            assert(pad.drop_last()[k] == pad[k]);
        }
        lemma_trim_end_skips_spaces(s, pad.drop_last());
    }
}

/// Trimming the front leaves nothing exactly of an all-whitespace sequence.
proof fn lemma_trim_start_empty_iff_all_space(s: Seq<char>)
    ensures
        trim_start(s).len() == 0 <==> all_space(s),
    decreases s.len(),
{
    if s.len() > 0 && is_space(s[0]) {
        lemma_trim_start_empty_iff_all_space(s.drop_first());
        assert forall|k: int| 0 <= k < s.drop_first().len() && all_space(s) implies is_space(
            s.drop_first()[k],
        ) by {
            assert(s.drop_first()[k] == s[k + 1]);
        }
        if all_space(s.drop_first()) {
            assert forall|k: int| 0 <= k < s.len() implies is_space(s[k]) by {
                if k > 0 {
                    assert(s[k] == s.drop_first()[k - 1]);
                }
            }
        }
    }
}

/// When `s` holds a non-whitespace character, trimming the front of
/// `s + tail` never reaches `tail`.
proof fn lemma_trim_start_distributes(s: Seq<char>, tail: Seq<char>)
    requires
        !all_space(s),
    ensures
        trim_start(s + tail) == trim_start(s) + tail,
    decreases s.len(),
{
    let w = choose|k: int| 0 <= k < s.len() && !is_space(s[k]);
    if is_space(s[0]) {
        assert((s + tail).drop_first() =~= s.drop_first() + tail);
        assert(!is_space(s.drop_first()[w - 1]));
        lemma_trim_start_distributes(s.drop_first(), tail);
    } else {
        assert(!is_space((s + tail)[0]));
    }
}

/// Surrounding whitespace in the input never changes what trimming yields:
/// any all-whitespace padding on either side is ignored.
pub proof fn lemma_trimmed_ignores_padding(lead: Seq<char>, s: Seq<char>, tail: Seq<char>)
    requires
        all_space(lead),
        all_space(tail),
    ensures
        trimmed(lead + s + tail) == trimmed(s),
{
    assert(lead + s + tail =~= lead + (s + tail));
    lemma_trim_start_skips_spaces(lead, s + tail);
    if all_space(s) {
        assert forall|k: int| 0 <= k < (s + tail).len() implies is_space((s + tail)[k]) by {
            if k < s.len() {
                assert((s + tail)[k] == s[k]);
            } else {
                assert((s + tail)[k] == tail[k - s.len()]);
            }
        }
        lemma_trim_start_empty_iff_all_space(s + tail);
        lemma_trim_start_empty_iff_all_space(s);
        assert(trim_start(s + tail) =~= trim_start(s));
    } else {
        lemma_trim_start_distributes(s, tail);
        lemma_trim_end_skips_spaces(trim_start(s), tail);
    }
}

/// Whether `c` is one of the whitespace characters of [`is_space`].
pub fn is_space_char(c: char) -> (r: bool)
    ensures
        r == is_space(c),
{
    c == ' ' || c == '\t' || c == '\n' || c == '\r' || c == '\u{000B}' || c == '\u{000C}'
}

/// Removes leading and trailing whitespace from an identifier.
pub fn trim(s: &str) -> (r: String)
    ensures
        r@ == trimmed(s@),
{
    let n = s.unicode_len();
    let mut start: usize = 0;
    while start < n && is_space_char(s.get_char(start))
        invariant
            start <= n,
            n == s@.len(),
            forall|k: int| 0 <= k < start ==> is_space(s@[k]),
        decreases n - start,
    {
        start = start + 1;
    }
    let mut end: usize = n;
    while end > start && is_space_char(s.get_char(end - 1))
        invariant
            start <= end <= n,
            n == s@.len(),
            forall|k: int| end <= k < n ==> is_space(s@[k]),
        decreases end,
    {
        end = end - 1;
    }
    proof {
        lemma_trim_start_at(s@, start as int);
        let t = s@.subrange(start as int, n as int);
        lemma_trim_end_at(t, end - start);
        assert(t.subrange(0, end - start) =~= s@.subrange(start as int, end as int));
    }
    let sub = s.substring_char(start, end);
    sub.to_owned()
}

} // verus!
