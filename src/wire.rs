use vstd::prelude::*;

use crate::decimal::{all_digits, decimal, decimal_string, digits_value, lemma_decimal_round_trip, parse_decimal};

verus! {

/// The `Content-Range` value of a status probe: `bytes */{total}`.
pub open spec fn probe_content_range(total: nat) -> Seq<char> {
    "bytes */"@ + decimal(total)
}

/// The `Content-Range` value of a request that sends the bytes from `start`
/// to the end: `bytes {start}-{total-1}/{total}`.
pub open spec fn resume_content_range(start: nat, total: nat) -> Seq<char> {
    "bytes "@ + decimal(start) + "-"@ + decimal((total - 1) as nat) + "/"@ + decimal(total)
}

/// What a `Range` header of a probe reply starts with.
pub open spec fn range_prefix() -> Seq<char> {
    "bytes=0-"@
}

/// The last byte offset that a `Range` header `bytes=0-{n}` reports, or
/// `None` when the header has another form.
pub open spec fn range_last_byte(h: Seq<char>) -> Option<nat> {
    let p = range_prefix();
    let rest = h.subrange(p.len() as int, h.len() as int);
    if p.len() < h.len() && h.subrange(0, p.len() as int) == p && all_digits(rest) {
        Some(digits_value(rest))
    } else {
        None
    }
}

/// The offset to resume from that a probe reply reports: one past the last
/// byte of its `Range` header, or `0` when it has none; `None` when the
/// header is malformed.
pub open spec fn reported_offset(range: Option<Seq<char>>) -> Option<nat> {
    match range {
        None => Some(0),
        Some(h) => match range_last_byte(h) {
            Some(n) => Some(n + 1),
            None => None,
        },
    }
}

/// An optional string slice seen as an optional character sequence.
pub open spec fn opt_str_view(o: Option<&str>) -> Option<Seq<char>> {
    match o {
        Some(s) => Some(s@),
        None => None,
    }
}

/// A probe reply whose `Range` header is `bytes=0-{n}` reports `n` as the
/// last byte received, so the transfer resumes at `n + 1`.
pub proof fn lemma_range_header_offset(n: nat)
    ensures
        range_last_byte(range_prefix() + decimal(n)) == Some(n),
        reported_offset(Some(range_prefix() + decimal(n))) == Some(n + 1),
{
    lemma_decimal_round_trip(n);
    let h = range_prefix() + decimal(n);
    assert(h.subrange(0, range_prefix().len() as int) =~= range_prefix());
    assert(h.subrange(range_prefix().len() as int, h.len() as int) =~= decimal(n));
}

/// Whether `s` begins with `p`.
fn has_prefix(s: &str, p: &str) -> (r: bool)
    ensures
        r == (p@.len() <= s@.len() && s@.subrange(0, p@.len() as int) == p@),
{
    let n = s.unicode_len();
    let m = p.unicode_len();
    if m > n {
        return false;
    }
    let mut i: usize = 0;
    while i < m
        invariant
            n == s@.len(),
            m == p@.len(),
            m <= n,
            0 <= i <= m,
            forall|k: int| 0 <= k < i ==> s@[k] == p@[k],
        decreases m - i,
    {
        if s.get_char(i) != p.get_char(i) {
            assert(s@.subrange(0, m as int)[i as int] != p@[i as int]);
            return false;
        }
        i = i + 1;
    }
    assert(s@.subrange(0, m as int) =~= p@);
    true
}

/// The `Content-Range` header of a status probe.
pub fn probe_content_range_header(total: u64) -> (r: String)
    ensures
        r@ == probe_content_range(total as nat),
{
    let mut r = String::from_str("bytes */");
    r.append(decimal_string(total).as_str());
    r
}

/// The `Content-Range` header of a request that sends the bytes from `start`
/// to the end of a file of `total` bytes.
pub fn resume_content_range_header(start: u64, total: u64) -> (r: String)
    requires
        start < total,
    ensures
        r@ == resume_content_range(start as nat, total as nat),
{
    let mut r = String::from_str("bytes ");
    r.append(decimal_string(start).as_str());
    r.append("-");
    r.append(decimal_string(total - 1).as_str());
    r.append("/");
    r.append(decimal_string(total).as_str());
    r
}

/// The offset from which to resume, read from the `Range` header of a probe
/// reply (`None` for a reply without one). `None` when the header is
/// malformed or its offset does not fit in a `u64`.
pub fn resume_offset(range: Option<&str>) -> (r: Option<u64>)
    ensures
        r == (match reported_offset(opt_str_view(range)) {
            Some(o) if o <= u64::MAX => Some(o as u64),
            _ => None::<u64>,
        }),
{
    match range {
        None => Some(0),
        Some(h) => {
            let p = "bytes=0-";
            if !has_prefix(h, p) {
                return None;
            }
            let n = h.unicode_len();
            let m = p.unicode_len();
            if m == n {
                return None;
            }
            let rest = h.substring_char(m, n);
            match parse_decimal(rest) {
                None => None,
                Some(last) => {
                    if last == u64::MAX {
                        None
                    } else {
                        Some(last + 1)
                    }
                },
            }
        },
    }
}

} // verus!
