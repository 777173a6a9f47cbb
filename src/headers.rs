//! Reading the authentication headers of a response: header lookup, the
//! timestamp and its replay window, and the structured signature header.
use crate::canonical::Version;
use crate::client::MAuthValidationError;
use crate::encoding::bytes_equal;
use crate::primitives::{base64_decode, base64_decoded, opt_bytes, uuid_parse, uuid_parsed};
use vstd::prelude::*;

verus! {

/// How far, in seconds, a response's timestamp may lie from the present.
pub const REPLAY_WINDOW: i64 = 300;

/// The first value of the header called `name`, if there is one.
pub open spec fn header_value(hs: Seq<(String, Vec<u8>)>, name: Seq<char>) -> Option<Seq<u8>>
    decreases hs.len(),
{
    if hs.len() == 0 {
        None
    } else if hs[0].0@ == name {
        Some(hs[0].1@)
    } else {
        header_value(hs.drop_first(), name)
    }
}

/// Whether every byte is visible ASCII or a tab, as HTTP header text must be.
pub open spec fn visible_ascii(s: Seq<u8>) -> bool {
    forall|i: int| 0 <= i < s.len() ==> (32 <= #[trigger] s[i] < 127 || s[i] == 9)
}

/// Whether a byte is an ASCII decimal digit.
pub open spec fn is_digit(b: u8) -> bool {
    48 <= b <= 57
}

/// Whether every byte is an ASCII decimal digit.
pub open spec fn all_digits(s: Seq<u8>) -> bool {
    forall|i: int| 0 <= i < s.len() ==> is_digit(#[trigger] s[i])
}

/// The number that a string of decimal digits spells.
pub open spec fn digits_value(s: Seq<u8>) -> nat
    decreases s.len(),
{
    if s.len() == 0 {
        0
    } else {
        digits_value(s.drop_last()) * 10 + (s.last() - 48) as nat
    }
}

/// The magnitude spelled by `d`, if `d` is a non-empty run of digits whose
/// value is at most `limit`.
pub open spec fn bounded_digits(d: Seq<u8>, limit: nat) -> Option<nat> {
    if d.len() > 0 && all_digits(d) && digits_value(d) <= limit {
        Some(digits_value(d))
    } else {
        None
    }
}

/// The 64-bit signed integer that a timestamp header spells: an optional `+`
/// or `-`, then one or more digits, with the value in range.
pub open spec fn timestamp_value(s: Seq<u8>) -> Option<int> {
    if s.len() > 0 && s[0] == 45 {
        match bounded_digits(s.subrange(1, s.len() as int), 0x8000_0000_0000_0000) {
            Some(m) => Some(-m),
            None => None,
        }
    } else {
        let d = if s.len() > 0 && s[0] == 43 {
            s.subrange(1, s.len() as int)
        } else {
            s
        };
        match bounded_digits(d, 0x7fff_ffff_ffff_ffff) {
            Some(m) => Some(m as int),
            None => None,
        }
    }
}

/// Whether a timestamp lies within the replay window around `now`, both
/// bounds included.
pub open spec fn within_window(ts: int, now: int) -> bool {
    -REPLAY_WINDOW <= ts - now <= REPLAY_WINDOW
}

/// Whether a byte separates the fields of a signature header: space, `:` or `;`.
pub open spec fn is_separator(b: u8) -> bool {
    b == 32 || b == 58 || b == 59
}

/// The index of the first separator at or after `i`, or the length.
pub open spec fn next_separator(s: Seq<u8>, i: int) -> int
    decreases s.len() - i,
{
    if i >= s.len() {
        s.len() as int
    } else if is_separator(s[i]) {
        i
    } else {
        next_separator(s, i + 1)
    }
}

/// The first three separator-delimited fields of a signature header, if it
/// has that many.
pub open spec fn auth_fields(s: Seq<u8>) -> Option<(Seq<u8>, Seq<u8>, Seq<u8>)> {
    let e0 = next_separator(s, 0);
    if e0 >= s.len() {
        None
    } else {
        let e1 = next_separator(s, e0 + 1);
        if e1 >= s.len() {
            None
        } else {
            let e2 = next_separator(s, e1 + 1);
            Some((s.subrange(0, e0), s.subrange(e0 + 1, e1), s.subrange(e1 + 1, e2)))
        }
    }
}

/// The scheme tag that opens a signature header: `MWS` or `MWSV2`.
pub open spec fn scheme_tag(version: Version) -> Seq<u8> {
    match version {
        Version::Legacy => seq![77u8, 87u8, 83u8],
        Version::Current => seq![77u8, 87u8, 83u8, 86u8, 50u8],
    }
}

/// The signer and the signature that a signature header carries, if it is
/// visible ASCII, opens with the version's tag, names a valid identity and
/// holds valid base64.
pub open spec fn parsed_auth(version: Version, s: Seq<u8>) -> Option<(u128, Seq<u8>)> {
    if !visible_ascii(s) {
        None
    } else {
        match auth_fields(s) {
            None => None,
            Some(f) => if f.0 != scheme_tag(version) {
                None
            } else {
                match (uuid_parsed(f.1), base64_decoded(f.2)) {
                    (Some(id), Some(sig)) => Some((id, sig)),
                    _ => None,
                }
            },
        }
    }
}

/// The first value of the header called `name`.
pub fn find_header(hs: &Vec<(String, Vec<u8>)>, name: &String) -> (r: Option<Vec<u8>>)
    ensures
        opt_bytes(r) == header_value(hs@, name@),
{
    let mut i: usize = 0;
    assert(hs@.subrange(0, hs@.len() as int) =~= hs@);
    while i < hs.len()
        invariant
            0 <= i <= hs@.len(),
            header_value(hs@, name@) == header_value(hs@.subrange(i as int, hs@.len() as int), name@),
        decreases hs@.len() - i,
    {
        let ghost rest = hs@.subrange(i as int, hs@.len() as int);
        assert(rest.drop_first() =~= hs@.subrange(i + 1, hs@.len() as int));
        if hs[i].0 == *name {
            return Some(hs[i].1.clone());
        }
        i = i + 1;
    }
    None
}

/// Whether every byte is visible ASCII or a tab.
pub fn is_visible_ascii(s: &[u8]) -> (r: bool)
    ensures
        r == visible_ascii(s@),
{
    let mut i: usize = 0;
    while i < s.len()
        invariant
            0 <= i <= s@.len(),
            forall|k: int| 0 <= k < i ==> (32 <= #[trigger] s@[k] < 127 || s@[k] == 9),
        decreases s@.len() - i,
    {
        let b = s[i];
        if !(32 <= b && b < 127 || b == 9) {
            return false;
        }
        i = i + 1;
    }
    true
}

proof fn lemma_prefix_value_le(s: Seq<u8>, j: int)
    requires
        all_digits(s),
        0 <= j <= s.len(),
    ensures
        digits_value(s.subrange(0, j)) <= digits_value(s),
    decreases s.len(),
{
    if j < s.len() {
        let t = s.drop_last();
        assert(t.subrange(0, j) =~= s.subrange(0, j));
        assert(all_digits(t));
        lemma_prefix_value_le(t, j);
    } else {
        assert(s.subrange(0, j) =~= s);
    }
}

/// The value of `d` if it is a non-empty run of digits no larger than `limit`.
fn parse_digits(d: &[u8], limit: u64) -> (r: Option<u64>)
    ensures
        match r {
            Some(v) => bounded_digits(d@, limit as nat) == Some(v as nat),
            None => bounded_digits(d@, limit as nat) is None,
        },
{
    if d.len() == 0 {
        return None;
    }
    let mut acc: u64 = 0;
    let mut i: usize = 0;
    while i < d.len()
        invariant
            0 <= i <= d@.len(),
            all_digits(d@.subrange(0, i as int)),
            acc as nat == digits_value(d@.subrange(0, i as int)),
            acc <= limit,
        decreases d@.len() - i,
    {
        let b = d[i];
        if b < 48 || b > 57 {
            assert(!is_digit(d@[i as int]));
            return None;
        }
        let next: u128 = acc as u128 * 10 + (b - 48) as u128;
        let ghost pre = d@.subrange(0, i + 1);
        assert(pre.drop_last() =~= d@.subrange(0, i as int));
        assert(all_digits(pre));
        if next > limit as u128 {
            proof {
                if all_digits(d@) {
                    lemma_prefix_value_le(d@, i + 1);
                }
            }
            return None;
        }
        acc = next as u64;
        i = i + 1;
    }
    assert(d@.subrange(0, d@.len() as int) =~= d@);
    Some(acc)
}

/// The value of a timestamp header, read as `i64` text is read.
pub fn parse_timestamp(s: &[u8]) -> (r: Option<i64>)
    ensures
        match r {
            Some(v) => timestamp_value(s@) == Some(v as int),
            None => timestamp_value(s@) is None,
        },
{
    if s.len() > 0 && s[0] == 45 {
        match parse_digits(&s[1..s.len()], 0x8000_0000_0000_0000) {
            Some(m) => {
                if m == 0x8000_0000_0000_0000 {
                    Some(i64::MIN)
                } else {
                    Some(-(m as i64))
                }
            },
            None => None,
        }
    } else {
        let d = if s.len() > 0 && s[0] == 43 {
            &s[1..s.len()]
        } else {
            s
        };
        match parse_digits(d, 0x7fff_ffff_ffff_ffff) {
            Some(m) => Some(m as i64),
            None => None,
        }
    }
}

/// Checks a response's timestamp header against the present time `now`:
/// `InvalidTime` unless it spells an `i64` within the replay window.
pub fn validate_timestamp(timestamp: &[u8], now: i64) -> (r: Result<i64, MAuthValidationError>)
    ensures
        match r {
            Ok(ts) => timestamp_value(timestamp@) == Some(ts as int) && within_window(
                ts as int,
                now as int,
            ),
            Err(e) => e == MAuthValidationError::InvalidTime && match timestamp_value(timestamp@) {
                Some(ts) => !within_window(ts, now as int),
                None => true,
            },
        },
{
    match parse_timestamp(timestamp) {
        None => Err(MAuthValidationError::InvalidTime),
        Some(ts) => {
            let diff: i128 = ts as i128 - now as i128;
            if diff > REPLAY_WINDOW as i128 || diff < -(REPLAY_WINDOW as i128) {
                Err(MAuthValidationError::InvalidTime)
            } else {
                Ok(ts)
            }
        },
    }
}

/// A timestamp exactly at the edge of the replay window is accepted, and one
/// a second beyond it, in either direction, is refused.
pub proof fn lemma_replay_window_edges(now: int)
    ensures
        within_window(now - REPLAY_WINDOW, now),
        within_window(now + REPLAY_WINDOW, now),
        !within_window(now - REPLAY_WINDOW - 1, now),
        !within_window(now + REPLAY_WINDOW + 1, now),
{
}

/// The index of the first separator at or after `from`, or the length.
fn find_separator(s: &[u8], from: usize) -> (r: usize)
    requires
        from <= s@.len(),
    ensures
        r as int == next_separator(s@, from as int),
        from <= r <= s@.len(),
{
    let mut i: usize = from;
    while i < s.len()
        invariant
            from <= i <= s@.len(),
            next_separator(s@, i as int) == next_separator(s@, from as int),
        decreases s@.len() - i,
    {
        let b = s[i];
        if b == 32 || b == 58 || b == 59 {
            return i;
        }
        i = i + 1;
    }
    i
}

/// The signer's identity and the signature bytes in a signature header of
/// `version`; `InvalidSignature` if the header is not well formed.
pub fn split_auth_string(version: Version, auth: &[u8]) -> (r: Result<
    (u128, Vec<u8>),
    MAuthValidationError,
>)
    ensures
        match r {
            Ok((id, sig)) => parsed_auth(version, auth@) == Some((id, sig@)),
            Err(e) => e == MAuthValidationError::InvalidSignature && parsed_auth(
                version,
                auth@,
            ) is None,
        },
{
    if !is_visible_ascii(auth) {
        return Err(MAuthValidationError::InvalidSignature);
    }
    let e0 = find_separator(auth, 0);
    if e0 >= auth.len() {
        return Err(MAuthValidationError::InvalidSignature);
    }
    let e1 = find_separator(auth, e0 + 1);
    if e1 >= auth.len() {
        return Err(MAuthValidationError::InvalidSignature);
    }
    let e2 = find_separator(auth, e1 + 1);
    let tag: Vec<u8> = match version {
        Version::Legacy => vec![77u8, 87u8, 83u8],
        Version::Current => vec![77u8, 87u8, 83u8, 86u8, 50u8],
    };
    assert(tag@ =~= scheme_tag(version));
    if !bytes_equal(&auth[0..e0], tag.as_slice()) {
        return Err(MAuthValidationError::InvalidSignature);
    }
    let id = match uuid_parse(&auth[e0 + 1..e1]) {
        Some(id) => id,
        None => {
            return Err(MAuthValidationError::InvalidSignature);
        },
    };
    match base64_decode(&auth[e1 + 1..e2]) {
        Some(sig) => Ok((id, sig)),
        None => Err(MAuthValidationError::InvalidSignature),
    }
}

} // verus!
