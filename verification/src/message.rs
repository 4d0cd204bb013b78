//! Fields of the serial messages that the deck reads: `*` opens a message,
//! `$` closes it, and in between stand two-byte flags (`M1`, `L0`) and
//! counters (`V007`, `F123`).

use vstd::prelude::*;
use crate::decimal::{padded_decimal, signed_decimal, zero_padded};

verus! {

/// First byte of every message: `*`.
pub const MESSAGE_START: u8 = 42;
/// Last byte of every message: `$`.
pub const MESSAGE_END: u8 = 36;
/// Tag of the microphone flag: `M`.
pub const MICRO_TAG: u8 = 77;
/// Tag of the live flag: `L`.
pub const LIVE_TAG: u8 = 76;
/// Tag of the viewer counter: `V`.
pub const VIEWERS_TAG: u8 = 86;
/// Tag of the follower counter: `F`.
pub const FOLLOWERS_TAG: u8 = 70;
/// Minimum number of bytes of a counter's digits; shorter texts are padded with `'0'`.
pub const COUNTER_WIDTH: usize = 3;

/// A flag field: its tag, then `'1'` when set and `'0'` when not.
pub open spec fn flag_field(tag: u8, on: bool) -> Seq<u8> {
    seq![tag, if on { 49u8 } else { 48u8 }]
}

/// A counter field: its tag, then the decimal text of `v` padded with `'0'`
/// to at least three bytes.
pub open spec fn counter_field(tag: u8, v: int) -> Seq<u8> {
    seq![tag] + zero_padded(signed_decimal(v), COUNTER_WIDTH as nat)
}

/// A whole message around `body`.
pub open spec fn framed(body: Seq<u8>) -> Seq<u8> {
    seq![MESSAGE_START] + body + seq![MESSAGE_END]
}

/// Appends the flag field `tag` for `on`.
pub fn push_flag(out: &mut Vec<u8>, tag: u8, on: bool)
    ensures
        final(out)@ == old(out)@ + flag_field(tag, on),
{
    out.push(tag);
    if on {
        out.push(49);
    } else {
        out.push(48);
    }
    assert(out@ =~= old(out)@ + flag_field(tag, on));
}

/// Appends the counter field `tag` for `v`.
pub fn push_counter(out: &mut Vec<u8>, tag: u8, v: i64)
    ensures
        final(out)@ == old(out)@ + counter_field(tag, v as int),
{
    out.push(tag);
    let mut digits = padded_decimal(v, COUNTER_WIDTH);
    out.append(&mut digits);
    assert(out@ =~= old(out)@ + counter_field(tag, v as int));
}

} // verus!
