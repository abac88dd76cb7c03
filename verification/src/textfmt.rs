//! Rendering of the range header value and the notification message as bytes.

use vstd::prelude::*;

verus! {

/// The decimal digits of `n`, most significant first, as ASCII bytes.
pub open spec fn dec_digits(n: nat) -> Seq<u8>
    decreases n,
{
    if n < 10 {
        seq![(48 + n) as u8]
    } else {
        dec_digits(n / 10).push((48 + n % 10) as u8)
    }
}

/// Appends the decimal rendering of `n` to `out`.
pub fn push_decimal(out: &mut Vec<u8>, n: u64)
    ensures
        final(out)@ == old(out)@ + dec_digits(n as nat),
    decreases n,
{
    if n >= 10 {
        push_decimal(out, n / 10);
        out.push((48 + (n % 10)) as u8);
        proof {
            assert(out@ =~= old(out)@ + dec_digits(n as nat));
        }
    } else {
        out.push((48 + n) as u8);
        proof {
            assert(out@ =~= old(out)@ + dec_digits(n as nat));
        }
    }
}

/// `bytes=<start>-<end>`, the HTTP byte-range header value for the
/// inclusive range `[start, end]`.
pub open spec fn range_header_spec(start: u64, end: u64) -> Seq<u8> {
    seq![98u8, 121u8, 116u8, 101u8, 115u8, 61u8]
        + dec_digits(start as nat)
        + seq![45u8]
        + dec_digits(end as nat)
}

/// Builds the byte-range header value for the inclusive range `[start, end]`.
pub fn range_header_value(start: u64, end: u64) -> (r: Vec<u8>)
    ensures
        r@ == range_header_spec(start, end),
{
    let mut out: Vec<u8> = Vec::new();
    out.push(98u8);
    out.push(121u8);
    out.push(116u8);
    out.push(101u8);
    out.push(115u8);
    out.push(61u8);
    push_decimal(&mut out, start);
    out.push(45u8);
    push_decimal(&mut out, end);
    proof {
        assert(out@ =~= range_header_spec(start, end));
    }
    out
}

/// `end - start` with wrap-around on underflow; the range is not validated,
/// so the difference in the message is taken modulo 2^64.
pub open spec fn range_total(start: u64, end: u64) -> u64 {
    if start <= end {
        (end - start) as u64
    } else {
        (end - start + 0x1_0000_0000_0000_0000) as u64
    }
}

/// `start: <start>, end: <end>, total: <end-start>, buffersize: <buffer_len>`,
/// the status message handed to the notifier after a successful fill.
pub open spec fn notification_message_spec(start: u64, end: u64, buffer_len: usize) -> Seq<u8> {
    seq![115u8, 116u8, 97u8, 114u8, 116u8, 58u8, 32u8]
        + dec_digits(start as nat)
        + seq![44u8, 32u8, 101u8, 110u8, 100u8, 58u8, 32u8]
        + dec_digits(end as nat)
        + seq![44u8, 32u8, 116u8, 111u8, 116u8, 97u8, 108u8, 58u8, 32u8]
        + dec_digits(range_total(start, end) as nat)
        + seq![44u8, 32u8, 98u8, 117u8, 102u8, 102u8, 101u8, 114u8, 115u8, 105u8, 122u8, 101u8, 58u8, 32u8]
        + dec_digits(buffer_len as nat)
}

/// Builds the status message for a successful fill of a buffer of
/// `buffer_len` bytes after requesting the range `[start, end]`.
pub fn notification_message(start: u64, end: u64, buffer_len: usize) -> (r: Vec<u8>)
    ensures
        r@ == notification_message_spec(start, end, buffer_len),
{
    let mut out: Vec<u8> = Vec::new();
    out.push(115u8);
    out.push(116u8);
    out.push(97u8);
    out.push(114u8);
    out.push(116u8);
    out.push(58u8);
    out.push(32u8);
    push_decimal(&mut out, start);
    push_separator(&mut out);
    out.push(101u8);
    out.push(110u8);
    out.push(100u8);
    out.push(58u8);
    out.push(32u8);
    push_decimal(&mut out, end);
    push_separator(&mut out);
    out.push(116u8);
    out.push(111u8);
    out.push(116u8);
    out.push(97u8);
    out.push(108u8);
    out.push(58u8);
    out.push(32u8);
    let total = end.wrapping_sub(start);
    proof {
        assert(total == range_total(start, end));
    }
    push_decimal(&mut out, total);
    push_separator(&mut out);
    out.push(98u8);
    out.push(117u8);
    out.push(102u8);
    out.push(102u8);
    out.push(101u8);
    out.push(114u8);
    out.push(115u8);
    out.push(105u8);
    out.push(122u8);
    out.push(101u8);
    out.push(58u8);
    out.push(32u8);
    push_decimal_usize(&mut out, buffer_len);
    proof {
        assert(out@ =~= notification_message_spec(start, end, buffer_len));
    }
    out
}

/// Appends `", "`.
fn push_separator(out: &mut Vec<u8>)
    ensures
        final(out)@ == old(out)@ + seq![44u8, 32u8],
{
    out.push(44u8);
    out.push(32u8);
    proof {
        assert(out@ =~= old(out)@ + seq![44u8, 32u8]);
    }
}

/// Appends the decimal rendering of a `usize`.
fn push_decimal_usize(out: &mut Vec<u8>, n: usize)
    ensures
        final(out)@ == old(out)@ + dec_digits(n as nat),
{
    push_decimal(out, n as u64);
}

} // verus!
