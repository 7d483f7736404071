//! The bit-packed canvas and its wire layout.
//!
//! A frame is a block of [`FRAME_LEN`] bytes. Byte 0 is the marker that the
//! device expects, byte 1 is reserved, and the remaining bytes hold the
//! pixels row by row, one bit each, most significant bit first.

use vstd::prelude::*;

verus! {

/// Width of the canvas in pixels.
pub const WIDTH: usize = 128;

/// Height of the canvas in pixels.
pub const HEIGHT: usize = 40;

/// Number of bytes that precede the pixel data in a frame.
pub const HEADER_LEN: usize = 2;

/// Number of bytes that hold the pixels of a frame.
pub const PIXEL_BYTES: usize = 640;

/// Length of a whole frame: header and pixel data.
pub const FRAME_LEN: usize = 642;

/// Value of byte 0 of every frame the device accepts.
pub const FRAME_MARKER: u8 = 0x61;

/// Whether `(x, y)` lies on the canvas.
pub open spec fn in_bounds(x: int, y: int) -> bool {
    0 <= x < 128 && 0 <= y < 40
}

/// Position of the pixel `(x, y)` in row-major order.
pub open spec fn pixel_index(x: int, y: int) -> int {
    x + y * 128
}

/// Index of the frame byte that holds the pixel with the given index.
pub open spec fn byte_offset(index: int) -> int {
    2 + index / 8
}

/// Position, counted from the least significant bit, of the pixel with the
/// given index inside its byte.
pub open spec fn bit_position(index: int) -> int {
    7 - index % 8
}

/// Whether bit `pos` of `byte` is set.
pub open spec fn bit_of(byte: u8, pos: u8) -> bool {
    (byte >> pos) & 1 == 1
}

/// `byte` with bit `pos` set or cleared.
pub open spec fn with_bit(byte: u8, pos: u8, on: bool) -> u8 {
    if on {
        byte | (1u8 << pos)
    } else {
        byte & !(1u8 << pos)
    }
}

/// The frame in which no pixel is set.
pub open spec fn blank_frame() -> Seq<u8> {
    Seq::new(
        642,
        |i: int|
            if i == 0 {
                0x61u8
            } else {
                0u8
            },
    )
}

/// A frame after it has been cleared: the blank frame, whatever it held.
pub open spec fn cleared(frame: Seq<u8>) -> Seq<u8> {
    blank_frame()
}

/// Whether the pixel `(x, y)` is set in `frame`. Nothing is set off the canvas.
pub open spec fn pixel_at(frame: Seq<u8>, x: int, y: int) -> bool {
    in_bounds(x, y) && bit_of(
        frame[byte_offset(pixel_index(x, y))],
        bit_position(pixel_index(x, y)) as u8,
    )
}

/// `frame` after the pixel `(x, y)` has been written. A write off the canvas
/// leaves the frame as it is.
pub open spec fn with_pixel(frame: Seq<u8>, x: int, y: int, on: bool) -> Seq<u8> {
    if in_bounds(x, y) {
        frame.update(
            byte_offset(pixel_index(x, y)),
            with_bit(
                frame[byte_offset(pixel_index(x, y))],
                bit_position(pixel_index(x, y)) as u8,
                on,
            ),
        )
    } else {
        frame
    }
}

/// `frame` with every set bit of `layer` added to its pixel data. Byte `i` of
/// the layer lies over byte `2 + i` of the frame; the header stays, and so
/// does whatever the layer does not reach.
pub open spec fn overlaid(frame: Seq<u8>, layer: Seq<u8>) -> Seq<u8> {
    Seq::new(
        frame.len(),
        |i: int|
            if 2 <= i && i - 2 < layer.len() {
                frame[i] | layer[i - 2]
            } else {
                frame[i]
            },
    )
}

/// `frame` with its pixel data replaced by that of `source`, a frame in wire
/// form. The header of `frame` stays.
pub open spec fn loaded(frame: Seq<u8>, source: Seq<u8>) -> Seq<u8> {
    Seq::new(
        frame.len(),
        |i: int|
            if 2 <= i {
                source[i]
            } else {
                frame[i]
            },
    )
}

/// Writing one bit of a byte gives that bit the new value and keeps the others.
pub proof fn lemma_with_bit(byte: u8, pos: u8, on: bool, other: u8)
    requires
        pos < 8,
        other < 8,
    ensures
        bit_of(with_bit(byte, pos, on), other) == (if other == pos {
            on
        } else {
            bit_of(byte, other)
        }),
{
    assert(((byte | (1u8 << pos)) >> other) & 1 == 1 <==> (other == pos || (byte >> other) & 1
        == 1)) by (bit_vector)
        requires
            pos < 8,
            other < 8,
    ;
    assert(((byte & !(1u8 << pos)) >> other) & 1 == 1 <==> (other != pos && (byte >> other) & 1
        == 1)) by (bit_vector)
        requires
            pos < 8,
            other < 8,
    ;
}

/// A bit of the union of two bytes is set when it is set in either.
pub proof fn lemma_bit_of_union(a: u8, b: u8, pos: u8)
    requires
        pos < 8,
    ensures
        bit_of(a | b, pos) == (bit_of(a, pos) || bit_of(b, pos)),
{
    assert((((a | b) >> pos) & 1 == 1) <==> ((a >> pos) & 1 == 1 || (b >> pos) & 1 == 1))
        by (bit_vector)
        requires
            pos < 8,
    ;
}

/// A pixel on the canvas that was just set shows as a set bit in the wire
/// form: in byte `2 + (x + y * 128) / 8`, at the position
/// `7 - (x + y * 128) % 8` counted from the least significant bit.
pub proof fn lemma_set_pixel_wire_bit(frame: Seq<u8>, x: int, y: int)
    requires
        frame.len() == 642,
        in_bounds(x, y),
    ensures
        (with_pixel(frame, x, y, true)[2 + (x + y * 128) / 8] >> ((7 - (x + y * 128) % 8) as u8))
            & 1 == 1,
{
    let pos = (7 - (x + y * 128) % 8) as u8;
    lemma_with_bit(frame[2 + (x + y * 128) / 8], pos, true, pos);
}

/// After a write on the canvas the written pixel reads as what was written,
/// and every other pixel reads as before.
pub proof fn lemma_pixel_after_write(frame: Seq<u8>, x: int, y: int, on: bool, u: int, v: int)
    requires
        frame.len() == 642,
        in_bounds(x, y),
    ensures
        pixel_at(with_pixel(frame, x, y, on), u, v) == (if u == x && v == y {
            on
        } else {
            pixel_at(frame, u, v)
        }),
{
    if in_bounds(u, v) {
        let written = pixel_index(x, y);
        let read = pixel_index(u, v);
        let pos = bit_position(written) as u8;
        let other = bit_position(read) as u8;
        if byte_offset(written) == byte_offset(read) {
            lemma_with_bit(frame[byte_offset(written)], pos, on, other);
            assert(pos == other ==> written == read);
        }
    }
}

/// A write off the canvas changes no byte of the frame.
pub proof fn lemma_write_off_canvas(frame: Seq<u8>, x: int, y: int, on: bool)
    requires
        !in_bounds(x, y),
    ensures
        with_pixel(frame, x, y, on) == frame,
{
}

/// A write keeps the length of the frame and, on a frame of full length, its
/// header.
pub proof fn lemma_write_keeps_header(frame: Seq<u8>, x: int, y: int, on: bool)
    requires
        frame.len() == 642,
    ensures
        with_pixel(frame, x, y, on).len() == 642,
        with_pixel(frame, x, y, on)[0] == frame[0],
        with_pixel(frame, x, y, on)[1] == frame[1],
{
}

/// In the blank frame byte 0 is the marker and no pixel is set.
pub proof fn lemma_blank_frame(x: int, y: int)
    ensures
        blank_frame().len() == 642,
        blank_frame()[0] == 0x61u8,
        !pixel_at(blank_frame(), x, y),
{
    if in_bounds(x, y) {
        let pos = bit_position(pixel_index(x, y)) as u8;
        assert(!bit_of(0u8, pos)) by (bit_vector)
            requires
                pos < 8,
        ;
    }
}

/// A pixel is set after an overlay when it was set before or the layer sets
/// it. The layer holds the pixel with index `i` in byte `i / 8`, most
/// significant bit first.
pub proof fn lemma_pixel_after_overlay(frame: Seq<u8>, layer: Seq<u8>, x: int, y: int)
    requires
        frame.len() == 642,
        layer.len() == 640,
        in_bounds(x, y),
    ensures
        pixel_at(overlaid(frame, layer), x, y) == (pixel_at(frame, x, y) || bit_of(
            layer[pixel_index(x, y) / 8],
            bit_position(pixel_index(x, y)) as u8,
        )),
        overlaid(frame, layer)[0] == frame[0],
        overlaid(frame, layer)[1] == frame[1],
{
    let index = pixel_index(x, y);
    lemma_bit_of_union(frame[byte_offset(index)], layer[index / 8], bit_position(index) as u8);
}

/// A monochrome canvas of 128 by 40 pixels in the form the device takes.
pub struct FrameBuffer {
    data: [u8; 642],
}

impl View for FrameBuffer {
    type V = Seq<u8>;

    closed spec fn view(&self) -> Seq<u8> {
        self.data@
    }
}

impl FrameBuffer {
    /// A frame with the marker stamped and no pixel set.
    pub fn new() -> (fb: FrameBuffer)
        ensures
            fb@ == blank_frame(),
    {
        let mut data: [u8; 642] = [0u8; 642];
        data[0] = FRAME_MARKER;
        let fb = FrameBuffer { data };
        assert(fb@ =~= blank_frame());
        fb
    }

    /// Unsets every pixel and stamps the marker again, whatever the frame held.
    pub fn clear(&mut self)
        ensures
            final(self)@ == cleared(old(self)@),
    {
        let mut i: usize = 0;
        while i < FRAME_LEN
            invariant
                i <= 642,
                self.data@.len() == 642,
                forall|k: int| 0 <= k < i ==> self.data@[k] == 0u8,
            decreases 642 - i,
        {
            self.data[i] = 0u8;
            i = i + 1;
        }
        self.data[0] = FRAME_MARKER;
        assert(self@ =~= blank_frame());
    }

    /// Writes the pixel `(x, y)`. Coordinates off the canvas are ignored.
    pub fn set_pixel(&mut self, x: i32, y: i32, on: bool)
        ensures
            final(self)@ == with_pixel(old(self)@, x as int, y as int, on),
            final(self)@.len() == 642,
    {
        if 0 <= x && x < 128 && 0 <= y && y < 40 {
            let index: usize = x as usize + y as usize * WIDTH;
            let offset: usize = HEADER_LEN + index / 8;
            let pos: u8 = (7 - index % 8) as u8;
            let current: u8 = self.data[offset];
            let updated: u8 = if on {
                current | (1u8 << pos)
            } else {
                current & !(1u8 << pos)
            };
            self.data[offset] = updated;
            assert(self@ =~= with_pixel(old(self)@, x as int, y as int, on));
        }
    }

    /// Tells whether the pixel `(x, y)` is set. Nothing is set off the canvas.
    pub fn get_pixel(&self, x: i32, y: i32) -> (on: bool)
        ensures
            on == pixel_at(self@, x as int, y as int),
    {
        if 0 <= x && x < 128 && 0 <= y && y < 40 {
            let index: usize = x as usize + y as usize * WIDTH;
            let offset: usize = HEADER_LEN + index / 8;
            let pos: u8 = (7 - index % 8) as u8;
            (self.data[offset] >> pos) & 1 == 1
        } else {
            false
        }
    }

    /// The frame as the device takes it, borrowed from the buffer.
    pub fn as_bytes(&self) -> (bytes: &[u8])
        ensures
            bytes@ == self@,
            bytes@.len() == 642,
    {
        self.data.as_slice()
    }

    /// Adds every set bit of `layer` to the pixel data: byte `i` of the layer
    /// is laid over the frame byte `2 + i`. The header is kept, and a layer
    /// that is too long is used as far as the frame reaches.
    pub fn overlay(&mut self, layer: &[u8])
        ensures
            final(self)@ == overlaid(old(self)@, layer@),
    {
        let mut i: usize = 0;
        while i < PIXEL_BYTES && i < layer.len()
            invariant
                i <= 640,
                i <= layer@.len(),
                self.data@.len() == 642,
                forall|k: int|
                    0 <= k < 642 ==> #[trigger] self.data@[k] == (if 2 <= k < 2 + i {
                        old(self).data@[k] | layer@[k - 2]
                    } else {
                        old(self).data@[k]
                    }),
            decreases 640 - i,
        {
            let merged: u8 = self.data[i + HEADER_LEN] | layer[i];
            self.data[i + HEADER_LEN] = merged;
            i = i + 1;
        }
        assert(self@ =~= overlaid(old(self)@, layer@));
    }
}

/// Clearing twice leaves the same frame as clearing once, and after a clear
/// byte 0 is the marker whatever the frame held before.
pub proof fn lemma_clear_idempotent(frame: Seq<u8>)
    ensures
        cleared(cleared(frame)) == cleared(frame),
        cleared(frame)[0] == 0x61u8,
        cleared(frame).len() == 642,
{
}

} // verus!
