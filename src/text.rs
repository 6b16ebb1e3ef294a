use vstd::prelude::*;
use vstd::std_specs::iter::IteratorSpec;

verus! {

/// Relies on `String::push`: appends one character at the end.
#[verifier::external_body]
pub(crate) fn push_char(s: &mut String, c: char)
    ensures
        final(s)@ == old(s)@.push(c),
{
    s.push(c)
}

/// The characters of a string slice, in order.
pub fn chars_of(s: &str) -> (r: Vec<char>)
    ensures
        r@ == s@,
{
    let mut it = s.chars();
    let mut out: Vec<char> = Vec::new();
    loop
        invariant
            it.obeys_prophetic_iter_laws(),
            it.decrease() is Some,
            out@ + it.remaining() == s@,
        ensures
            out@ == s@,
        decreases it.decrease()->0,
    {
        match it.next() {
            Some(c) => {
                out.push(c);
            },
            None => {
                assert(out@ =~= s@);
                break;
            },
        }
    }
    out
}


/// Whether `pat` stands in `s` at position `i`.
pub open spec fn occurs_at(s: Seq<char>, pat: Seq<char>, i: int) -> bool {
    0 <= i && i + pat.len() <= s.len() && s.subrange(i, i + pat.len()) == pat
}

/// The first position at or after `from` at which `pat` stands in `s`.
pub open spec fn first_occurrence(s: Seq<char>, pat: Seq<char>, from: int) -> Option<int>
    decreases s.len() + 1 - from,
{
    if from < 0 || from + pat.len() > s.len() {
        None
    } else if occurs_at(s, pat, from) {
        Some(from)
    } else {
        first_occurrence(s, pat, from + 1)
    }
}

/// Whether `pat` stands in `s` at position `at`.
fn matches_at(s: &Vec<char>, pat: &Vec<char>, at: usize) -> (r: bool)
    ensures
        r == occurs_at(s@, pat@, at as int),
{
    if at > s.len() || pat.len() > s.len() - at {
        return false;
    }
    let mut k: usize = 0;
    while k < pat.len()
        invariant
            k <= pat.len(),
            at + pat.len() <= s.len(),
            forall|j: int| 0 <= j < k ==> s@[at + j] == pat@[j],
        decreases pat.len() - k,
    {
        if s[at + k] != pat[k] {
            assert(s@.subrange(at as int, at + pat.len())[k as int] != pat@[k as int]);
            return false;
        }
        k = k + 1;
    }
    assert(s@.subrange(at as int, at + pat.len()) =~= pat@);
    true
}

/// The first position at or after `from` at which `pat` stands in `s`.
pub fn find(s: &Vec<char>, pat: &Vec<char>, from: usize) -> (r: Option<usize>)
    ensures
        r matches Some(i) ==> first_occurrence(s@, pat@, from as int) == Some(i as int),
        r is None ==> first_occurrence(s@, pat@, from as int) is None,
{
    let mut i: usize = from;
    while i <= s.len() && pat.len() <= s.len() - i
        invariant
            from <= i,
            first_occurrence(s@, pat@, from as int) == first_occurrence(s@, pat@, i as int),
        decreases s.len() + 1 - i,
    {
        if matches_at(s, pat, i) {
            return Some(i);
        }
        proof {
            if i == s.len() {
                assert(s@.subrange(i as int, i as int) =~= pat@);
            }
        }
        i = i + 1;
    }
    None
}

/// The characters of `s` from `start` up to `end`, as a string.
pub fn string_of_range(s: &Vec<char>, start: usize, end: usize) -> (r: String)
    requires
        start <= end <= s@.len(),
    ensures
        r@ == s@.subrange(start as int, end as int),
{
    let mut out = String::new();
    let mut k: usize = start;
    while k < end
        invariant
            start <= k <= end,
            end <= s@.len(),
            out@ == s@.subrange(start as int, k as int),
        decreases end - k,
    {
        push_char(&mut out, s[k]);
        assert(s@.subrange(start as int, k + 1) =~= s@.subrange(start as int, k as int).push(s@[k as int]));
        k = k + 1;
    }
    out
}


/// Whether every character of `s` is an ASCII decimal digit.
pub open spec fn all_digits(s: Seq<char>) -> bool {
    forall|i: int| 0 <= i < s.len() ==> '0' <= #[trigger] s[i] <= '9'
}

/// The number that a string of decimal digits writes, most significant first.
pub open spec fn digits_value(s: Seq<char>) -> nat
    decreases s.len(),
{
    if s.len() == 0 {
        0
    } else {
        digits_value(s.drop_last()) * 10 + (s.last() as nat - '0' as nat) as nat
    }
}

/// The digits of an unsigned decimal: the text without one leading `+`.
pub open spec fn unsigned_digits(s: Seq<char>) -> Seq<char> {
    if s.len() > 0 && s[0] == '+' {
        s.drop_first()
    } else {
        s
    }
}

/// An unsigned 32-bit decimal: an optional `+` and one or more digits,
/// whose value fits in 32 bits.
pub open spec fn decimal_u32(s: Seq<char>) -> Option<u32> {
    let d = unsigned_digits(s);
    if d.len() > 0 && all_digits(d) && digits_value(d) <= u32::MAX {
        Some(digits_value(d) as u32)
    } else {
        None
    }
}

proof fn lemma_digits_prefix_le(s: Seq<char>, i: int)
    requires
        all_digits(s),
        0 <= i <= s.len(),
    ensures
        digits_value(s.subrange(0, i)) <= digits_value(s),
    decreases s.len() - i,
{
    if i < s.len() {
        lemma_digits_prefix_le(s, i + 1);
        let p = s.subrange(0, i + 1);
        assert(p.drop_last() =~= s.subrange(0, i));
        assert(p.last() == s[i]);
    } else {
        assert(s.subrange(0, i) =~= s);
    }
}

/// Reads an unsigned 32-bit decimal: an optional `+` and one or more ASCII
/// digits, with no other character, whose value fits in 32 bits.
pub fn parse_u32(s: &Vec<char>) -> (r: Option<u32>)
    ensures
        r == decimal_u32(s@),
{
    let ghost d = unsigned_digits(s@);
    let start: usize = if s.len() > 0 && s[0] == '+' { 1 } else { 0 };
    assert(d =~= s@.subrange(start as int, s@.len() as int));
    if start >= s.len() {
        return None;
    }
    let mut value: u64 = 0;
    let mut k: usize = start;
    while k < s.len()
        invariant
            start <= k <= s@.len(),
            d == unsigned_digits(s@),
            d == s@.subrange(start as int, s@.len() as int),
            all_digits(d.subrange(0, k - start)),
            value == digits_value(d.subrange(0, k - start)),
            value <= u32::MAX,
        decreases s.len() - k,
    {
        let c = s[k];
        let ghost p = d.subrange(0, k + 1 - start);
        assert(p.drop_last() =~= d.subrange(0, k - start));
        assert(p.last() == c);
        if c < '0' || c > '9' {
            assert(!all_digits(d)) by {
                assert(d[k - start] == c);
            }
            return None;
        }
        let digit: u64 = (c as u32 - '0' as u32) as u64;
        value = value * 10 + digit;
        assert(all_digits(p));
        if value > u32::MAX as u64 {
            proof {
                if all_digits(d) {
                    lemma_digits_prefix_le(d, k + 1 - start);
                }
            }
            return None;
        }
        k = k + 1;
    }
    assert(d.subrange(0, d.len() as int) =~= d);
    Some(value as u32)
}


/// Opens the payload in an event's debug text; what comes before it names
/// the event's variant.
pub const PAYLOAD_OPEN: &'static str = "(";

/// The variant name at the head of an event's debug text: the text before
/// its first `(`, or `None` where it has none.
pub fn variant_name(debug: &str) -> (r: Option<String>)
    ensures
        first_occurrence(debug@, PAYLOAD_OPEN@, 0) matches Some(i) ==> r matches Some(t) && t@
            == debug@.subrange(0, i),
        first_occurrence(debug@, PAYLOAD_OPEN@, 0) is None ==> r is None,
{
    let s = chars_of(debug);
    match find(&s, &chars_of(PAYLOAD_OPEN), 0) {
        Some(i) => {
            proof {
                lemma_first_occurrence_bounds(s@, PAYLOAD_OPEN@, 0);
            }
            Some(string_of_range(&s, 0, i))
        },
        None => None,
    }
}

/// A position found by `first_occurrence` lies at or after where the search
/// began, and the whole pattern fits there.
pub proof fn lemma_first_occurrence_bounds(s: Seq<char>, pat: Seq<char>, from: int)
    requires
        first_occurrence(s, pat, from) is Some,
    ensures
        from <= first_occurrence(s, pat, from)->0,
        first_occurrence(s, pat, from)->0 + pat.len() <= s.len(),
    decreases s.len() + 1 - from,
{
    if !(from < 0 || from + pat.len() > s.len()) && !occurs_at(s, pat, from) {
        lemma_first_occurrence_bounds(s, pat, from + 1);
    }
}

} // verus!
