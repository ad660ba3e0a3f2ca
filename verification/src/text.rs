//! Text helpers: ASCII case folding and decimal numbers.

use vstd::prelude::*;

verus! {

/// The ASCII lower-case form of one character; everything but `A`..`Z` is
/// left as it is.
pub open spec fn ascii_lower(c: char) -> char {
    if 'A' <= c && c <= 'Z' {
        ((c as u8) + 32) as char
    } else {
        c
    }
}

/// The ASCII lower-case form of a text, character by character.
pub open spec fn lowercase(s: Seq<char>) -> Seq<char> {
    Seq::new(s.len(), |i: int| ascii_lower(s[i]))
}

/// Whether a text is its own ASCII lower-case form.
pub open spec fn is_lowercase(s: Seq<char>) -> bool {
    forall|i: int| 0 <= i < s.len() ==> !('A' <= #[trigger] s[i] && s[i] <= 'Z')
}

/// Case folding is idempotent, so a folded name can be folded again safely.
pub proof fn lemma_lowercase_idempotent(s: Seq<char>)
    ensures
        is_lowercase(lowercase(s)),
        lowercase(lowercase(s)) == lowercase(s),
        is_lowercase(s) ==> lowercase(s) == s,
{
    assert forall|i: int| 0 <= i < s.len() implies ascii_lower(ascii_lower(s[i])) == ascii_lower(
        s[i],
    ) && !('A' <= ascii_lower(s[i]) && ascii_lower(s[i]) <= 'Z') by {
        let c = s[i];
        if 'A' <= c && c <= 'Z' {
            assert(((c as u8) + 32) as char >= 'a');
        }
    }
    assert(lowercase(lowercase(s)) =~= lowercase(s));
    if is_lowercase(s) {
        assert(lowercase(s) =~= s);
    }
}

/// `str::to_ascii_lowercase` of the standard library: a copy of the text in
/// which each of `A`..`Z` is replaced by its lower-case letter and every other
/// character is kept.
#[verifier::external_body]
pub(crate) fn to_ascii_lowercase(s: &str) -> (r: String)
    ensures
        r@ == lowercase(s@),
{
    s.to_ascii_lowercase()
}

/// Whether every character is a decimal digit.
pub open spec fn all_digits(s: Seq<char>) -> bool {
    forall|i: int| 0 <= i < s.len() ==> '0' <= #[trigger] s[i] && s[i] <= '9'
}

/// The number that a run of decimal digits denotes, most significant first.
pub open spec fn decimal_value(s: Seq<char>) -> nat
    decreases s.len(),
{
    if s.len() == 0 {
        0
    } else {
        decimal_value(s.drop_last()) * 10 + ((s.last() as int - '0' as int) as nat)
    }
}

/// The digits of a decimal number text: the text without one leading `+`.
pub open spec fn unsigned_digits(s: Seq<char>) -> Seq<char> {
    if s.len() > 0 && s[0] == '+' {
        s.skip(1)
    } else {
        s
    }
}

/// What a text denotes as an unsigned 64-bit decimal number: an optional `+`,
/// then one or more digits and nothing else, the value within range.
pub open spec fn parse_u64_spec(s: Seq<char>) -> Option<u64> {
    let d = unsigned_digits(s);
    if d.len() > 0 && all_digits(d) && decimal_value(d) <= u64::MAX {
        Some(decimal_value(d) as u64)
    } else {
        None
    }
}

/// Appending digits never makes the denoted number smaller.
pub proof fn lemma_decimal_value_monotonic(s: Seq<char>, k: int)
    requires
        all_digits(s),
        0 <= k <= s.len(),
    ensures
        decimal_value(s.take(k)) <= decimal_value(s),
    decreases s.len() - k,
{
    if k == s.len() {
        assert(s.take(k) =~= s);
    } else {
        lemma_decimal_value_monotonic(s, k + 1);
        let t = s.take(k + 1);
        assert(t.drop_last() =~= s.take(k));
        assert('0' <= t.last());
    }
}

/// Reads an unsigned decimal number: an optional `+` followed by digits only.
/// Anything else, an empty text or a value above `u64::MAX` gives `None`.
pub fn parse_u64(s: &str) -> (r: Option<u64>)
    ensures
        r == parse_u64_spec(s@),
{
    if !s.is_ascii() {
        proof {
            let d = unsigned_digits(s@);
            if d.len() > 0 && all_digits(d) {
                assert forall|i: int| 0 <= i < s@.len() implies '\0' <= #[trigger] s@[i] && s@[i]
                    <= '\u{7f}' by {
                    if s@[0] == '+' {
                        if i > 0 {
                            assert(d[i - 1] == s@[i]);
                        }
                    } else {
                        assert(d[i] == s@[i]);
                    }
                }
                assert(false);
            }
        }
        return None;
    }
    let bytes = s.as_bytes();
    proof {
        vstd::string::is_ascii_spec_bytes(s);
    }
    let n: usize = bytes.len();
    assert forall|j: int| 0 <= j < n implies bytes@[j] as int == #[trigger] s@[j] as int by {
        assert('\0' <= s@[j] && s@[j] <= '\u{7f}');
    }
    let start: usize = if n > 0 && bytes[0] == 43u8 { 1 } else { 0 };
    let ghost d = unsigned_digits(s@);
    assert(d =~= s@.skip(start as int));
    if start == n {
        return None;
    }
    let mut acc: u64 = 0;
    let mut i: usize = start;
    while i < n
        invariant
            start <= i <= n,
            n == s@.len(),
            bytes@.len() == n,
            forall|j: int| 0 <= j < n ==> bytes@[j] as int == #[trigger] s@[j] as int,
            d == s@.skip(start as int),
            d == unsigned_digits(s@),
            all_digits(d.take(i - start)),
            acc == decimal_value(d.take(i - start)),
        decreases n - i,
    {
        let b: u8 = bytes[i];
        let ghost prefix = d.take(i - start + 1);
        proof {
            assert(prefix.drop_last() =~= d.take(i - start));
            assert(prefix.last() == s@[i as int]);
        }
        if b < 48u8 || b > 57u8 {
            proof {
                assert(d[i - start] == s@[i as int]);
                assert(b as int == s@[i as int] as int);
                assert(!all_digits(d));
            }
            return None;
        }
        let digit: u64 = (b - 48u8) as u64;
        assert(all_digits(prefix)) by {
            assert forall|j: int| 0 <= j < prefix.len() implies '0' <= #[trigger] prefix[j]
                && prefix[j] <= '9' by {
                if j < i - start {
                    assert(d.take(i - start)[j] == prefix[j]);
                }
            }
        }
        assert(decimal_value(prefix) == acc * 10 + digit);
        if acc > (u64::MAX - digit) / 10 {
            proof {
                assert(acc * 10 + digit > u64::MAX);
                if all_digits(d) {
                    lemma_decimal_value_monotonic(d, i - start + 1);
                    assert(decimal_value(d) > u64::MAX);
                }
            }
            return None;
        }
        acc = acc * 10 + digit;
        i = i + 1;
    }
    assert(d.take(n - start) =~= d);
    Some(acc)
}

} // verus!
