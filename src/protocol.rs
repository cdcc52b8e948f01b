//! Decoding of trigger datagrams.
//!
//! A datagram carries a decimal trigger number as text: an optional `+`
//! followed by one or more ASCII digits, whose value fits a `usize`. Bytes
//! that are not valid UTF-8 decode to a replacement character, which is no
//! digit, so decoding works on the raw bytes directly.
use vstd::prelude::*;

verus! {

/// The largest datagram read from the socket.
pub const MAX_DATAGRAM_LEN: usize = 1024;

pub open spec fn is_digit(b: u8) -> bool {
    48 <= b <= 57
}

pub open spec fn all_digits(s: Seq<u8>) -> bool {
    forall|i: int| 0 <= i < s.len() ==> is_digit(#[trigger] s[i])
}

/// The value of a string of decimal digits, most significant first.
pub open spec fn digits_value(s: Seq<u8>) -> nat
    decreases s.len(),
{
    if s.len() == 0 {
        0
    } else {
        digits_value(s.drop_last()) * 10 + (s.last() - 48) as nat
    }
}

/// The digits of a payload: the payload without one leading `+`.
pub open spec fn digit_part(s: Seq<u8>) -> Seq<u8> {
    if s.len() > 0 && s[0] == 43 {
        s.subrange(1, s.len() as int)
    } else {
        s
    }
}

/// The trigger number that a payload carries, if it carries one.
pub open spec fn trigger_of(s: Seq<u8>) -> Option<nat> {
    let d = digit_part(s);
    if d.len() > 0 && all_digits(d) && digits_value(d) <= usize::MAX {
        Some(digits_value(d))
    } else {
        None
    }
}

proof fn lemma_prefix_value_le(s: Seq<u8>, j: int)
    requires
        0 <= j <= s.len(),
        all_digits(s),
    ensures
        digits_value(s.take(j)) <= digits_value(s),
    decreases s.len(),
{
    if j < s.len() {
        let t = s.drop_last();
        assert(t.take(j) =~= s.take(j));
        assert(all_digits(t)) by {
            assert forall|i: int| 0 <= i < t.len() implies is_digit(#[trigger] t[i]) by {
                assert(t[i] == s[i]);
            }
        }
        lemma_prefix_value_le(t, j);
    } else {
        assert(s.take(j) =~= s);
    }
}

/// Decodes a datagram payload into a trigger number; `None` for a payload
/// that is not a decimal number in the range of `usize`.
pub fn parse_trigger(payload: &[u8]) -> (r: Option<usize>)
    ensures
        r matches Some(n) ==> trigger_of(payload@) == Some(n as nat),
        r is None ==> trigger_of(payload@) is None,
{
    let len = payload.len();
    let start: usize = if len > 0 && payload[0] == 43u8 { 1 } else { 0 };
    let ghost d = digit_part(payload@);
    assert(d =~= payload@.subrange(start as int, len as int));
    if start >= len {
        return None;
    }
    let mut i: usize = start;
    while i < len
        invariant
            start <= i <= len,
            len == payload@.len(),
            d == digit_part(payload@),
            d =~= payload@.subrange(start as int, len as int),
            forall|k: int| start <= k < i ==> is_digit(#[trigger] payload@[k]),
        decreases len - i,
    {
        let b = payload[i];
        if b < 48u8 || b > 57u8 {
            assert(d[i - start] == payload@[i as int]);
            assert(!is_digit(d[i - start]));
            assert(!all_digits(d));
            return None;
        }
        i = i + 1;
    }
    assert(all_digits(d)) by {
        assert forall|k: int| 0 <= k < d.len() implies is_digit(#[trigger] d[k]) by {
            assert(d[k] == payload@[k + start]);
        }
    }
    let mut acc: usize = 0;
    let mut j: usize = start;
    while j < len
        invariant
            start <= j <= len,
            len == payload@.len(),
            d == digit_part(payload@),
            d =~= payload@.subrange(start as int, len as int),
            all_digits(d),
            acc as nat == digits_value(d.take(j - start)),
        decreases len - j,
    {
        let ghost k = j - start;
        assert(d[k] == payload@[j as int]);
        assert(is_digit(d[k]));
        let digit = (payload[j] - 48u8) as usize;
        assert(d.take(k + 1).drop_last() =~= d.take(k));
        assert(d.take(k + 1).last() == payload@[j as int]);
        assert(digits_value(d.take(k + 1)) == acc * 10 + digit);
        match acc.checked_mul(10) {
            None => {
                proof {
                    lemma_prefix_value_le(d, k + 1);
                    assert(digits_value(d) > usize::MAX);
                            }
                return None;
            },
            Some(m) => match m.checked_add(digit) {
                None => {
                    proof {
                        lemma_prefix_value_le(d, k + 1);
                        assert(digits_value(d) > usize::MAX);
                                }
                    return None;
                },
                Some(v) => {
                    acc = v;
                },
            },
        }
        j = j + 1;
    }
    assert(d.take(len - start) =~= d);
    Some(acc)
}

/// A payload that holds no digits, or any byte other than a digit after an
/// optional leading `+`, yields no trigger, so it never reaches the channel.
pub proof fn law_malformed_payload_yields_no_trigger(payload: Seq<u8>, i: int)
    requires
        digit_part(payload).len() == 0 || (0 <= i < digit_part(payload).len() && !is_digit(
            digit_part(payload)[i],
        )),
    ensures
        trigger_of(payload) is None,
{
}

} // verus!
