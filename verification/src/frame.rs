//! One frame of the panel: 240 x 416 pixels packed eight to a byte, most significant bit first,
//! row after row.
use vstd::prelude::*;
use crate::{PIXELS_ARRAY, PIXELS_X, PIXELS_Y};
use embedded_graphics::geometry::Point;

verus! {

/// The mask that selects bit `bit` of a byte, counting from the most significant bit.
pub open spec fn bit_mask(bit: u8) -> u8 {
    0x80u8 >> bit
}

/// Whether bit `bit` (counted from the most significant bit) of `byte` is set.
pub open spec fn bit_is_set(byte: u8, bit: u8) -> bool {
    byte & bit_mask(bit) != 0
}

/// `byte` with bit `bit` (counted from the most significant bit) set when `on`, cleared otherwise.
pub open spec fn byte_with_bit(byte: u8, bit: u8, on: bool) -> u8 {
    if on {
        byte | bit_mask(bit)
    } else {
        byte & !bit_mask(bit)
    }
}

/// Whether `(x, y)` names a pixel of the panel.
pub open spec fn in_bounds(x: int, y: int) -> bool {
    0 <= x < PIXELS_X && 0 <= y < PIXELS_Y
}

/// Position of pixel `(x, y)` in the frame, counted in bits: rows of `PIXELS_X` pixels.
pub open spec fn pixel_index(x: int, y: int) -> int {
    x + PIXELS_X * y
}

/// Whether pixel `(x, y)` is on in the frame `frame`.
pub open spec fn pixel_on(frame: Seq<u8>, x: int, y: int) -> bool {
    let i = pixel_index(x, y);
    bit_is_set(frame[i / 8], (i % 8) as u8)
}

/// The frame `frame` after drawing pixel `(x, y)` with colour `on`; a pixel outside the panel
/// leaves the frame as it was.
pub open spec fn frame_with_pixel(frame: Seq<u8>, x: int, y: int, on: bool) -> Seq<u8> {
    if in_bounds(x, y) {
        let i = pixel_index(x, y);
        frame.update(i / 8, byte_with_bit(frame[i / 8], (i % 8) as u8, on))
    } else {
        frame
    }
}

/// A frame that has the size of the panel.
pub open spec fn is_frame(frame: Seq<u8>) -> bool {
    frame.len() == PIXELS_ARRAY
}

/// Setting or clearing one bit of a byte changes that bit and no other.
pub proof fn lemma_byte_with_bit(byte: u8, bit: u8, on: bool, other: u8)
    requires
        bit < 8,
        other < 8,
    ensures
        bit_is_set(byte_with_bit(byte, bit, on), other) == (if other == bit {
            on
        } else {
            bit_is_set(byte, other)
        }),
{
    if on {
        assert(((byte | (0x80u8 >> bit)) & (0x80u8 >> other) != 0) == (if other == bit {
            true
        } else {
            byte & (0x80u8 >> other) != 0
        })) by (bit_vector)
            requires
                bit < 8,
                other < 8,
        ;
    } else {
        assert(((byte & !(0x80u8 >> bit)) & (0x80u8 >> other) != 0) == (if other == bit {
            false
        } else {
            byte & (0x80u8 >> other) != 0
        })) by (bit_vector)
            requires
                bit < 8,
                other < 8,
        ;
    }
}

/// Two distinct pixels of the panel sit at distinct bits of the frame, and every pixel of the
/// panel sits inside the frame.
pub proof fn lemma_pixel_positions(x: int, y: int, x2: int, y2: int)
    requires
        in_bounds(x, y),
        in_bounds(x2, y2),
    ensures
        0 <= pixel_index(x, y) / 8 < PIXELS_ARRAY,
        0 <= pixel_index(x, y) % 8 < 8,
        (x, y) != (x2, y2) ==> (pixel_index(x, y) / 8 != pixel_index(x2, y2) / 8
            || pixel_index(x, y) % 8 != pixel_index(x2, y2) % 8),
{
    let i = pixel_index(x, y);
    let j = pixel_index(x2, y2);
    if (x, y) != (x2, y2) {
        if y == y2 {
            assert(i != j);
        } else if y < y2 {
            assert(j - i >= 240 - (x - x2)) by (nonlinear_arith)
                requires
                    y < y2,
                    i == x + 240 * y,
                    j == x2 + 240 * y2,
            ;
            assert(i != j);
        } else {
            assert(i - j >= 240 - (x2 - x)) by (nonlinear_arith)
                requires
                    y2 < y,
                    i == x + 240 * y,
                    j == x2 + 240 * y2,
            ;
            assert(i != j);
        }
    }
}

/// After drawing pixel `(x, y)` of the panel with `on`, that pixel reads back as `on` and every
/// other pixel of the panel reads as before.
pub proof fn lemma_draw_then_read(frame: Seq<u8>, x: int, y: int, on: bool, x2: int, y2: int)
    requires
        is_frame(frame),
        in_bounds(x2, y2),
    ensures
        is_frame(frame_with_pixel(frame, x, y, on)),
        pixel_on(frame_with_pixel(frame, x, y, on), x2, y2) == (if in_bounds(x, y) && (x, y) == (
        x2, y2) {
            on
        } else {
            pixel_on(frame, x2, y2)
        }),
{
    if in_bounds(x, y) {
        lemma_pixel_positions(x, y, x2, y2);
        lemma_pixel_positions(x2, y2, x, y);
        let i = pixel_index(x, y);
        let j = pixel_index(x2, y2);
        let f2 = frame_with_pixel(frame, x, y, on);
        if i / 8 == j / 8 {
            lemma_byte_with_bit(frame[i / 8], (i % 8) as u8, on, (j % 8) as u8);
        }
    }
}

/// Drawing outside the panel leaves the frame unchanged.
pub proof fn lemma_draw_outside(frame: Seq<u8>, x: int, y: int, on: bool)
    requires
        !in_bounds(x, y),
    ensures
        frame_with_pixel(frame, x, y, on) == frame,
{
}

/// Drawing the same pixel twice keeps only the second colour.
pub proof fn lemma_draw_twice(frame: Seq<u8>, x: int, y: int, first: bool, second: bool)
    requires
        is_frame(frame),
    ensures
        frame_with_pixel(frame_with_pixel(frame, x, y, first), x, y, second) == frame_with_pixel(
            frame,
            x,
            y,
            second,
        ),
{
    if in_bounds(x, y) {
        lemma_pixel_positions(x, y, x, y);
        let i = pixel_index(x, y);
        let b = frame[i / 8];
        let bit = (i % 8) as u8;
        assert(byte_with_bit(byte_with_bit(b, bit, first), bit, second) == byte_with_bit(
            b,
            bit,
            second,
        )) by (bit_vector)
            requires
                bit < 8,
        ;
        assert(frame_with_pixel(frame_with_pixel(frame, x, y, first), x, y, second) =~= frame_with_pixel(
            frame,
            x,
            y,
            second,
        ));
    }
}

/// A byte is fixed by its eight bits.
proof fn lemma_bits_determine_byte(a: u8, b: u8)
    requires
        forall|k: u8| k < 8 ==> #[trigger] bit_is_set(a, k) == bit_is_set(b, k),
    ensures
        a == b,
{
    assert(bit_is_set(a, 0) == bit_is_set(b, 0));
    assert(bit_is_set(a, 1) == bit_is_set(b, 1));
    assert(bit_is_set(a, 2) == bit_is_set(b, 2));
    assert(bit_is_set(a, 3) == bit_is_set(b, 3));
    assert(bit_is_set(a, 4) == bit_is_set(b, 4));
    assert(bit_is_set(a, 5) == bit_is_set(b, 5));
    assert(bit_is_set(a, 6) == bit_is_set(b, 6));
    assert(bit_is_set(a, 7) == bit_is_set(b, 7));
    assert(a == b) by (bit_vector)
        requires
            (a & (0x80u8 >> 0u8) != 0) == (b & (0x80u8 >> 0u8) != 0),
            (a & (0x80u8 >> 1u8) != 0) == (b & (0x80u8 >> 1u8) != 0),
            (a & (0x80u8 >> 2u8) != 0) == (b & (0x80u8 >> 2u8) != 0),
            (a & (0x80u8 >> 3u8) != 0) == (b & (0x80u8 >> 3u8) != 0),
            (a & (0x80u8 >> 4u8) != 0) == (b & (0x80u8 >> 4u8) != 0),
            (a & (0x80u8 >> 5u8) != 0) == (b & (0x80u8 >> 5u8) != 0),
            (a & (0x80u8 >> 6u8) != 0) == (b & (0x80u8 >> 6u8) != 0),
            (a & (0x80u8 >> 7u8) != 0) == (b & (0x80u8 >> 7u8) != 0),
    ;
}

/// Every bit of a frame belongs to a pixel of the panel, so two frames whose pixels all agree
/// are the same frame.
pub proof fn lemma_pixels_determine_frame(f1: Seq<u8>, f2: Seq<u8>)
    requires
        is_frame(f1),
        is_frame(f2),
        forall|x: int, y: int| in_bounds(x, y) ==> #[trigger] pixel_on(f1, x, y) == pixel_on(f2, x, y),
    ensures
        f1 == f2,
{
    assert forall|b: int| 0 <= b < PIXELS_ARRAY implies f1[b] == f2[b] by {
        assert forall|k: u8| k < 8 implies #[trigger] bit_is_set(f1[b], k) == bit_is_set(f2[b], k) by {
            let i = 8 * b + k;
            let x = i % 240;
            let y = i / 240;
            assert(pixel_index(x, y) == i);
            assert(in_bounds(x, y));
            assert(i / 8 == b);
            assert(i % 8 == k);
            assert(pixel_on(f1, x, y) == pixel_on(f2, x, y));
        }
        lemma_bits_determine_byte(f1[b], f2[b]);
    }
    assert(f1 =~= f2);
}

/// In a frame of zero bytes every pixel is off.
pub proof fn lemma_zero_frame_is_blank(frame: Seq<u8>, x: int, y: int)
    requires
        is_frame(frame),
        forall|i: int| 0 <= i < frame.len() ==> frame[i] == 0,
        in_bounds(x, y),
    ensures
        !pixel_on(frame, x, y),
{
    lemma_pixel_positions(x, y, x, y);
    let i = pixel_index(x, y);
    let bit = (i % 8) as u8;
    assert(0u8 & (0x80u8 >> bit) == 0) by (bit_vector);
}

/// The position of pixel `(x, y)` in the frame, counted in bits.
pub fn pixel2buffer(x: u32, y: u32) -> (index: usize)
    requires
        x + y * PIXELS_X <= u32::MAX,
    ensures
        index == pixel_index(x as int, y as int),
{
    (x + y * 240) as usize
}

/// The column and row, in bytes, of byte `i` of a frame stored column after column, 52 bytes to a
/// column.
pub fn index2address(i: usize) -> (address: (u8, u8))
    requires
        i / (PIXELS_Y / 8) < 256,
    ensures
        address.0 == i % (PIXELS_Y / 8),
        address.1 == i / (PIXELS_Y / 8),
{
    ((i % 52) as u8, (i / 52) as u8)
}

/// The coordinates of a point as unsigned integers, when neither is negative.
///
/// Calls `TryFrom<Point> for (u32, u32)` of embedded-graphics on `Point::new(x, y)`; the contract
/// claims what that impl's source shows: both `i32` to `u32` conversions succeed exactly when the
/// value is not negative, and keep the value.
#[verifier::external_body]
fn unsigned_coordinates(x: i32, y: i32) -> (r: Option<(u32, u32)>)
    ensures
        r == (if x >= 0 && y >= 0 {
            Some((x as u32, y as u32))
        } else {
            None
        }),
{
    <(u32, u32)>::try_from(Point::new(x, y)).ok()
}

/// One frame of the panel.
pub struct Buffer {
    pixels: Vec<u8>,
}

impl View for Buffer {
    type V = Seq<u8>;

    closed spec fn view(&self) -> Seq<u8> {
        self.pixels@
    }
}

impl Buffer {
    #[verifier::type_invariant]
    spec fn has_panel_size(self) -> bool {
        is_frame(self.pixels@)
    }

    /// A frame with every pixel off.
    pub fn new() -> (b: Buffer)
        ensures
            b@ == Seq::new(PIXELS_ARRAY as nat, |i: int| 0u8),
    {
        let mut pixels: Vec<u8> = Vec::new();
        let mut i: usize = 0;
        while i < PIXELS_ARRAY
            invariant
                i <= PIXELS_ARRAY,
                pixels@ == Seq::new(i as nat, |k: int| 0u8),
            decreases PIXELS_ARRAY - i,
        {
            pixels.push(0u8);
            i = i + 1;
            assert(pixels@ =~= Seq::new(i as nat, |k: int| 0u8));
        }
        Buffer { pixels }
    }

    /// The frame has the size of the panel.
    pub fn size_check(&self)
        ensures
            is_frame(self@),
    {
        proof {
            use_type_invariant(self);
        }
    }

    /// Draws pixel `(x, y)` of the panel with colour `on`.
    pub fn set_pixel(&mut self, x: u32, y: u32, on: bool)
        requires
            x < PIXELS_X,
            y < PIXELS_Y,
        ensures
            final(self)@ == frame_with_pixel(old(self)@, x as int, y as int, on),
    {
        proof {
            use_type_invariant(&*self);
            lemma_pixel_positions(x as int, y as int, x as int, y as int);
        }
        let index = pixel2buffer(x, y);
        let bit_index: u8 = (index % 8) as u8;
        let mask: u8 = 0b1000_0000u8 >> bit_index;
        let byte_index = index / 8;
        let color_bit: u8 = if on {
            1u8
        } else {
            0u8
        };
        let color_val_u8: u8 = color_bit << 7u8;
        let old_byte = self.pixels[byte_index];
        let new_byte = (old_byte & !mask) | (color_val_u8 >> bit_index);
        proof {
            if on {
                assert((old_byte & !(0x80u8 >> bit_index)) | ((color_bit << 7u8) >> bit_index)
                    == old_byte | (0x80u8 >> bit_index)) by (bit_vector)
                    requires
                        color_bit == 1u8,
                ;
            } else {
                assert((old_byte & !(0x80u8 >> bit_index)) | ((color_bit << 7u8) >> bit_index)
                    == old_byte & !(0x80u8 >> bit_index)) by (bit_vector)
                    requires
                        color_bit == 0u8,
                ;
            }
        }
        self.pixels[byte_index] = new_byte;
        proof {
            assert(self.pixels@ =~= frame_with_pixel(old(self)@, x as int, y as int, on));
        }
    }

    /// A copy of the frame's bytes.
    pub fn bytes(&self) -> (v: Vec<u8>)
        ensures
            v@ == self@,
    {
        let mut v: Vec<u8> = Vec::new();
        let mut i: usize = 0;
        while i < self.pixels.len()
            invariant
                i <= self.pixels@.len(),
                v@ == self.pixels@.subrange(0, i as int),
            decreases self.pixels@.len() - i,
        {
            v.push(self.pixels[i]);
            i = i + 1;
            assert(v@ =~= self.pixels@.subrange(0, i as int));
        }
        assert(v@ =~= self.pixels@);
        v
    }

    /// A second frame with the same pixels.
    pub fn duplicate(&self) -> (b: Buffer)
        ensures
            b@ == self@,
    {
        proof {
            use_type_invariant(self);
        }
        Buffer { pixels: self.bytes() }
    }
}

/// Largest column index of the panel.
const MAX_X_IDX: u32 = 239;

/// Largest row index of the panel.
const MAX_Y_IDX: u32 = 415;

/// Draws pixel `(x, y)` with colour `on` into `buffer`; a pixel outside the panel, a negative
/// coordinate among them, is left out without error.
pub fn draw_pixel(buffer: &mut Buffer, x: i32, y: i32, on: bool)
    ensures
        final(buffer)@ == frame_with_pixel(old(buffer)@, x as int, y as int, on),
{
    match unsigned_coordinates(x, y) {
        Some((ux, uy)) => {
            if ux <= MAX_X_IDX && uy <= MAX_Y_IDX {
                buffer.set_pixel(ux, uy, on);
            }
        },
        None => {},
    }
}

} // verus!
