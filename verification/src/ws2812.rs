//! Bit-stream encoder for WS2812-style LED strips.
//!
//! Each data byte expands, most-significant bit first, into eight 3-bit
//! symbols — `110` for a one bit, `100` for a zero bit — giving three output
//! bytes per input byte.  An LED occupies nine output bytes (green, red,
//! blue), and the stream is padded with a reset gap on both ends.

use vstd::prelude::*;

verus! {

/// Bytes of reset gap before and after the LED data.
pub const RESET_LEN: usize = 200;

/// The 24-bit expansion of one data byte: for each bit, most significant
/// first, the symbol `110` when set and `100` when clear.
pub open spec fn spec_ws_encode(d: u8) -> int {
    2097152 * (4 + 2 * ((d as int / 128) % 2)) + 262144 * (4 + 2 * ((d as int / 64) % 2)) + 32768
        * (4 + 2 * ((d as int / 32) % 2)) + 4096 * (4 + 2 * ((d as int / 16) % 2)) + 512 * (4 + 2 * (
    (d as int / 8) % 2)) + 64 * (4 + 2 * ((d as int / 4) % 2)) + 8 * (4 + 2 * ((d as int / 2) % 2))
        + (4 + 2 * (d as int % 2))
}

/// The three stream bytes of one data byte, most significant first.
pub open spec fn spec_ws_bytes(d: u8) -> Seq<u8> {
    let e = spec_ws_encode(d);
    seq![((e / 65536) % 256) as u8, ((e / 256) % 256) as u8, (e % 256) as u8]
}

/// An encoder writing into a stream buffer of `BUF_SIZE` bytes.
#[derive(Debug)]
pub struct Ws2812<const BUF_SIZE: usize> {
    data: Vec<u8>,
}

impl<const BUF_SIZE: usize> Ws2812<BUF_SIZE> {
    /// The stream bytes written so far.
    pub closed spec fn view(self) -> Seq<u8> {
        self.data@
    }

    /// Wraps a stream buffer for writing.
    pub fn new(data: Vec<u8>) -> (r: Ws2812<BUF_SIZE>)
        ensures
            r@ == data@,
    {
        Ws2812 { data }
    }

    /// Hands the stream buffer back.
    pub fn into_buf(self) -> (r: Vec<u8>)
        ensures
            r@ == self@,
    {
        self.data
    }

    /// Writes the three-byte expansion of `d` at `offset`, leaving every
    /// other stream byte unchanged.
    fn set_byte(&mut self, offset: usize, d: u8)
        requires
            offset + 3 <= old(self)@.len(),
        ensures
            final(self)@ == old(self)@.update(offset as int, spec_ws_bytes(d)[0]).update(
                offset + 1,
                spec_ws_bytes(d)[1],
            ).update(offset + 2, spec_ws_bytes(d)[2]),
    {
        let total = self.data.len();
        proof {
            assert(offset + 3 <= total);
        }
        let encoded: u32 = 2097152 * (4 + 2 * ((d as u32 / 128) % 2)) + 262144 * (4 + 2 * ((d as u32
            / 64) % 2)) + 32768 * (4 + 2 * ((d as u32 / 32) % 2)) + 4096 * (4 + 2 * ((d as u32 / 16)
            % 2)) + 512 * (4 + 2 * ((d as u32 / 8) % 2)) + 64 * (4 + 2 * ((d as u32 / 4) % 2)) + 8
            * (4 + 2 * ((d as u32 / 2) % 2)) + (4 + 2 * (d as u32 % 2));
        self.data[offset] = ((encoded / 65536) % 256) as u8;
        self.data[offset + 1] = ((encoded / 256) % 256) as u8;
        self.data[offset + 2] = ((encoded) % 256) as u8;
    }

    /// Writes one LED's nine stream bytes — green, red, blue — at the LED's
    /// position after the leading reset gap.  The rest of the stream is
    /// unchanged.
    pub fn set_led(&mut self, index: usize, r: u8, g: u8, b: u8)
        requires
            RESET_LEN + index * 9 + 9 <= old(self)@.len(),
        ensures
            final(self)@.len() == old(self)@.len(),
            final(self)@.subrange(
                RESET_LEN + index * 9,
                RESET_LEN + index * 9 + 3,
            ) == spec_ws_bytes(g),
            final(self)@.subrange(
                RESET_LEN + index * 9 + 3,
                RESET_LEN + index * 9 + 6,
            ) == spec_ws_bytes(r),
            final(self)@.subrange(
                RESET_LEN + index * 9 + 6,
                RESET_LEN + index * 9 + 9,
            ) == spec_ws_bytes(b),
            forall|k: int|
                0 <= k < old(self)@.len() && !(RESET_LEN + index * 9 <= k < RESET_LEN + index * 9
                    + 9) ==> final(self)@[k] == old(self)@[k],
    {
        let total = self.data.len();
        proof {
            assert(RESET_LEN + index * 9 + 9 <= total);
        }
        let base = RESET_LEN + index * 9;
        self.set_byte(base, g);
        self.set_byte(base + 3, r);
        self.set_byte(base + 6, b);
        proof {
            assert(self@.subrange(base as int, base + 3) =~= spec_ws_bytes(g));
            assert(self@.subrange(base + 3, base + 6) =~= spec_ws_bytes(r));
            assert(self@.subrange(base + 6, base + 9) =~= spec_ws_bytes(b));
        }
    }

    /// How many LEDs the buffer holds once both reset gaps are taken out.
    pub fn num_leds() -> (r: usize)
        requires
            BUF_SIZE >= 2 * RESET_LEN,
        ensures
            r == (BUF_SIZE - 2 * RESET_LEN) / 9,
    {
        (BUF_SIZE - RESET_LEN * 2) / 9
    }
}

/// The stream buffer length needed for `num_leds` LEDs: nine bytes per LED
/// plus a reset gap on each end.
pub fn buffer_len(num_leds: usize) -> (r: usize)
    requires
        9 * num_leds + 2 * RESET_LEN <= usize::MAX,
    ensures
        r == 2 * RESET_LEN + num_leds * 9,
{
    RESET_LEN * 2 + num_leds * 9
}

} // verus!
