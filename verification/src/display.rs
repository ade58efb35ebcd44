//! Battery-percentage overlay and display hand-off checks.
//!
//! The display task, when woken, validates the downloaded image buffer's
//! size, draws the battery percentage into its top-left corner, and hands
//! the buffer to the panel driver. The panel's own protocol is a hardware
//! matter outside this crate; here stand the pixel-exact drawing of the
//! overlay — a 5x7 digit font, scaled — and the size validation. The image
//! is 4 bits per pixel, two pixels per byte, row-major, 600 by 448.

use vstd::prelude::*;

verus! {

/// Panel width in pixels.
pub const EPD_WIDTH: u16 = 600;

/// Panel height in pixels.
pub const EPD_HEIGHT: u16 = 448;

/// Bytes per pixel row: two pixels per byte.
pub const EPD_WIDTH_HALF: u16 = 300;

/// Color index drawn as black.
pub const COLOR_BLACK: u8 = 0x0;

/// Color index drawn as white.
pub const COLOR_WHITE: u8 = 0x1;

/// The byte holding a pixel.
pub open spec fn pixel_index(x: int, y: int) -> int {
    x / 2 + 300 * y
}

/// The 4-bit color of a pixel: even columns sit in the high nibble of their
/// byte, odd columns in the low nibble.
pub open spec fn pixel_at(img: Seq<u8>, x: int, y: int) -> u8
    recommends
        0 <= x < EPD_WIDTH,
        0 <= y < EPD_HEIGHT,
        pixel_index(x, y) < img.len(),
{
    if x % 2 == 0 {
        img[pixel_index(x, y)] >> 4u8
    } else {
        img[pixel_index(x, y)] & 0x0F
    }
}

/// A pixel's byte after writing a color into its nibble.
pub open spec fn byte_with_pixel(byte: u8, x_even: bool, color: u8) -> u8 {
    if x_even {
        (byte & 0x0F) | ((color & 0x0F) << 4u8)
    } else {
        (byte & 0xF0) | (color & 0x0F)
    }
}

/// Write one pixel into the image buffer: the addressed nibble takes the
/// color's low four bits, the neighbouring nibble and every other byte stay.
/// A pixel whose byte lies beyond the buffer is ignored.
pub fn set_pixel(image: &mut Vec<u8>, x: u16, y: u16, color: u8, width_half: u16)
    ensures
        final(image)@.len() == old(image)@.len(),
        (x as int) / 2 + (width_half as int) * (y as int) < old(image)@.len() ==> final(image)@
            == old(image)@.update(
            (x as int) / 2 + (width_half as int) * (y as int),
            byte_with_pixel(
                old(image)@[(x as int) / 2 + (width_half as int) * (y as int)],
                x % 2 == 0,
                color,
            ),
        ),
        (x as int) / 2 + (width_half as int) * (y as int) >= old(image)@.len() ==> final(image)@
            == old(image)@,
{
    proof {
        assert((width_half as int) * (y as int) <= 0xFFFF * 0xFFFF) by (nonlinear_arith)
            requires
                width_half <= 0xFFFF,
                y <= 0xFFFF,
        ;
    }
    let byte_index: usize = (x as usize) / 2 + (width_half as usize) * (y as usize);
    if byte_index < image.len() {
        let byte = image[byte_index];
        if x % 2 == 0 {
            image[byte_index] = (byte & 0x0F) | ((color & 0x0F) << 4u8);
        } else {
            image[byte_index] = (byte & 0xF0) | (color & 0x0F);
        }
    }
}

/// Writing one pixel leaves every other pixel of the panel area unchanged,
/// and gives the written pixel exactly the color's low four bits.
pub proof fn lemma_set_pixel_effect(img: Seq<u8>, x: int, y: int, color: u8)
    requires
        0 <= x < EPD_WIDTH,
        0 <= y < EPD_HEIGHT,
        pixel_index(x, y) < img.len(),
    ensures
        pixel_at(
            img.update(pixel_index(x, y), byte_with_pixel(img[pixel_index(x, y)], x % 2 == 0, color)),
            x,
            y,
        ) == color & 0x0F,
        forall|px: int, py: int|
            0 <= px < EPD_WIDTH && 0 <= py < EPD_HEIGHT && !(px == x && py == y)
                && pixel_index(px, py) < img.len() ==> pixel_at(
                img.update(
                    pixel_index(x, y),
                    byte_with_pixel(img[pixel_index(x, y)], x % 2 == 0, color),
                ),
                px,
                py,
            ) == pixel_at(img, px, py),
{
    let new = img.update(pixel_index(x, y), byte_with_pixel(img[pixel_index(x, y)], x % 2 == 0, color));
    assert(forall|b: u8, c: u8| ((b & 0x0F) | ((c & 0x0F) << 4u8)) >> 4u8 == c & 0x0F)
        by (bit_vector);
    assert(forall|b: u8, c: u8| ((b & 0xF0) | (c & 0x0F)) & 0x0F == c & 0x0F) by (bit_vector);
    assert(forall|b: u8, c: u8| (((b & 0x0F) | ((c & 0x0F) << 4u8)) & 0x0F) == (b & 0x0F))
        by (bit_vector);
    assert(forall|b: u8, c: u8| (((b & 0xF0) | (c & 0x0F)) >> 4u8) == (b >> 4u8)) by (bit_vector);
    assert forall|px: int, py: int|
        0 <= px < EPD_WIDTH && 0 <= py < EPD_HEIGHT && !(px == x && py == y) && pixel_index(px, py)
            < img.len() implies pixel_at(new, px, py) == pixel_at(img, px, py) by {
        if pixel_index(px, py) == pixel_index(x, y) {
            assert(x / 2 < 300 && px / 2 < 300);
            assert(300 * y <= pixel_index(x, y) < 300 * (y + 1));
            assert(300 * py <= pixel_index(px, py) < 300 * (py + 1));
            assert(py == y);
            assert(px / 2 == x / 2);
            assert(px % 2 != x % 2);
        }
    }
}

/// The font columns of each digit, 0 through 9: five columns of seven
/// pixels, bit 6 the top row, bit 0 the bottom row.
pub open spec fn font_column(digit: int, col: int) -> u8
    recommends
        0 <= digit <= 9,
        0 <= col < 5,
{
    if digit == 0 {
        if col == 0 { 0b0111110 } else if col == 1 { 0b1000001 } else if col == 2 { 0b1000001 }
        else if col == 3 { 0b1000001 } else { 0b0111110 }
    } else if digit == 1 {
        if col == 0 { 0b0000000 } else if col == 1 { 0b0100001 } else if col == 2 { 0b1111111 }
        else if col == 3 { 0b0000001 } else { 0b0000000 }
    } else if digit == 2 {
        if col == 0 { 0b0100011 } else if col == 1 { 0b1000101 } else if col == 2 { 0b1001001 }
        else if col == 3 { 0b1010001 } else { 0b0100001 }
    } else if digit == 3 {
        if col == 0 { 0b0100010 } else if col == 1 { 0b1000001 } else if col == 2 { 0b1001001 }
        else if col == 3 { 0b1001001 } else { 0b0110110 }
    } else if digit == 4 {
        if col == 0 { 0b0001100 } else if col == 1 { 0b0010100 } else if col == 2 { 0b0100100 }
        else if col == 3 { 0b1111111 } else { 0b0000100 }
    } else if digit == 5 {
        if col == 0 { 0b1110010 } else if col == 1 { 0b1010001 } else if col == 2 { 0b1010001 }
        else if col == 3 { 0b1010001 } else { 0b1001110 }
    } else if digit == 6 {
        if col == 0 { 0b0111110 } else if col == 1 { 0b1001001 } else if col == 2 { 0b1001001 }
        else if col == 3 { 0b1001001 } else { 0b0000110 }
    } else if digit == 7 {
        if col == 0 { 0b1000000 } else if col == 1 { 0b1000111 } else if col == 2 { 0b1001000 }
        else if col == 3 { 0b1010000 } else { 0b1100000 }
    } else if digit == 8 {
        if col == 0 { 0b0110110 } else if col == 1 { 0b1001001 } else if col == 2 { 0b1001001 }
        else if col == 3 { 0b1001001 } else { 0b0110110 }
    } else {
        if col == 0 { 0b0110000 } else if col == 1 { 0b1001001 } else if col == 2 { 0b1001001 }
        else if col == 3 { 0b1001001 } else { 0b0111110 }
    }
}

/// One font column, read at run time.
fn glyph_column(digit: u8, col: u16) -> (column: u8)
    requires
        digit <= 9,
        col < 5,
    ensures
        column == font_column(digit as int, col as int),
{
    if digit == 0 {
        if col == 0 { 0b0111110 } else if col == 1 { 0b1000001 } else if col == 2 { 0b1000001 }
        else if col == 3 { 0b1000001 } else { 0b0111110 }
    } else if digit == 1 {
        if col == 0 { 0b0000000 } else if col == 1 { 0b0100001 } else if col == 2 { 0b1111111 }
        else if col == 3 { 0b0000001 } else { 0b0000000 }
    } else if digit == 2 {
        if col == 0 { 0b0100011 } else if col == 1 { 0b1000101 } else if col == 2 { 0b1001001 }
        else if col == 3 { 0b1010001 } else { 0b0100001 }
    } else if digit == 3 {
        if col == 0 { 0b0100010 } else if col == 1 { 0b1000001 } else if col == 2 { 0b1001001 }
        else if col == 3 { 0b1001001 } else { 0b0110110 }
    } else if digit == 4 {
        if col == 0 { 0b0001100 } else if col == 1 { 0b0010100 } else if col == 2 { 0b0100100 }
        else if col == 3 { 0b1111111 } else { 0b0000100 }
    } else if digit == 5 {
        if col == 0 { 0b1110010 } else if col == 1 { 0b1010001 } else if col == 2 { 0b1010001 }
        else if col == 3 { 0b1010001 } else { 0b1001110 }
    } else if digit == 6 {
        if col == 0 { 0b0111110 } else if col == 1 { 0b1001001 } else if col == 2 { 0b1001001 }
        else if col == 3 { 0b1001001 } else { 0b0000110 }
    } else if digit == 7 {
        if col == 0 { 0b1000000 } else if col == 1 { 0b1000111 } else if col == 2 { 0b1001000 }
        else if col == 3 { 0b1010000 } else { 0b1100000 }
    } else if digit == 8 {
        if col == 0 { 0b0110110 } else if col == 1 { 0b1001001 } else if col == 2 { 0b1001001 }
        else if col == 3 { 0b1001001 } else { 0b0110110 }
    } else {
        if col == 0 { 0b0110000 } else if col == 1 { 0b1001001 } else if col == 2 { 0b1001001 }
        else if col == 3 { 0b1001001 } else { 0b0111110 }
    }
}

/// Whether the font has a pixel at this cell of a digit's 5x7 grid.
pub open spec fn glyph_bit(digit: int, col: int, row: int) -> bool
    recommends
        0 <= digit <= 9,
        0 <= col < 5,
        0 <= row < 7,
{
    (font_column(digit, col) >> ((6 - row) as u8)) & 1 == 1
}

/// Whether drawing a digit at scale paints the pixel at offset (dx, dy)
/// from the digit's top-left corner: inside the scaled 5x7 cell grid, on a
/// cell the font fills.
pub open spec fn digit_paints(digit: int, scale: int, dx: int, dy: int) -> bool {
    0 <= dx < 5 * scale && 0 <= dy < 7 * scale && glyph_bit(digit, dx / scale, dy / scale)
}

/// Draw one digit at (x, y), each font cell scaled to a square of
/// scale-by-scale pixels. Pixels the font fills take the color; every other
/// pixel of the panel, and every byte past the panel area, stay. A value
/// above 9 draws nothing.
#[verifier::loop_isolation(false)]
pub fn draw_digit(image: &mut Vec<u8>, x: u16, y: u16, digit: u8, color: u8, scale: u16)
    requires
        x + 5 * scale <= u16::MAX,
        y + 7 * scale <= u16::MAX,
    ensures
        final(image)@.len() == old(image)@.len(),
        digit > 9 ==> final(image)@ == old(image)@,
        digit <= 9 ==> forall|px: int, py: int|
            #![trigger pixel_index(px, py)]
            0 <= px < EPD_WIDTH && 0 <= py < EPD_HEIGHT && pixel_index(px, py) < old(image)@.len()
                ==> pixel_at(final(image)@, px, py) == (if digit_paints(
                digit as int,
                scale as int,
                px - x,
                py - y,
            ) {
                color & 0x0F
            } else {
                pixel_at(old(image)@, px, py)
            }),
        forall|i: int| 134400 <= i < old(image)@.len() ==> final(image)@[i] == old(image)@[i],
{
    if digit > 9 {
        return ;
    }
    let ghost orig = image@;
    let height: u16 = 7 * scale;
    let width: u16 = 5 * scale;
    let mut dy: u16 = 0;
    while dy < height
        invariant
            dy <= height,
            image@.len() == orig.len(),
            forall|px: int, py: int|
                #![trigger pixel_index(px, py)]
                0 <= px < EPD_WIDTH && 0 <= py < EPD_HEIGHT && pixel_index(px, py) < orig.len()
                    ==> pixel_at(image@, px, py) == (if digit_paints(
                    digit as int,
                    scale as int,
                    px - x,
                    py - y,
                ) && py - y < dy {
                    color & 0x0F
                } else {
                    pixel_at(orig, px, py)
                }),
            forall|i: int| 134400 <= i < orig.len() ==> image@[i] == orig[i],
        decreases height - dy,
    {
        let mut dx: u16 = 0;
        while dx < width
            invariant
                dx <= width,
                dy < height,
                image@.len() == orig.len(),
                forall|px: int, py: int|
                    #![trigger pixel_index(px, py)]
                    0 <= px < EPD_WIDTH && 0 <= py < EPD_HEIGHT && pixel_index(px, py)
                        < orig.len() ==> pixel_at(image@, px, py) == (if digit_paints(
                        digit as int,
                        scale as int,
                        px - x,
                        py - y,
                    ) && (py - y < dy || (py - y == dy && px - x < dx)) {
                        color & 0x0F
                    } else {
                        pixel_at(orig, px, py)
                    }),
                forall|i: int| 134400 <= i < orig.len() ==> image@[i] == orig[i],
            decreases width - dx,
        {
            proof {
                assert(dx / scale < 5 && dy / scale < 7) by (nonlinear_arith)
                    requires
                        dx < 5 * scale,
                        dy < 7 * scale,
                        scale > 0,
                ;
            }
            let col: u16 = dx / scale;
            let row: u16 = dy / scale;
            let shift: u8 = (6 - row) as u8;
            let column = glyph_column(digit, col);
            if (column >> shift) & 1 == 1 {
                let px = x + dx;
                let py = y + dy;
                if px < EPD_WIDTH && py < EPD_HEIGHT {
                    let ghost before = image@;
                    set_pixel(image, px, py, color, EPD_WIDTH_HALF);
                    proof {
                        if pixel_index(px as int, py as int) < orig.len() {
                            lemma_set_pixel_effect(before, px as int, py as int, color);
                        }
                    }
                }
            }
            dx = dx + 1;
        }
        dy = dy + 1;
    }
}

/// How many digits the overlay draws for a value: up to three, no leading
/// zeros except for the value zero itself.
pub open spec fn digit_count(n: int) -> int {
    if n >= 100 {
        3
    } else if n >= 10 {
        2
    } else {
        1
    }
}

/// The digits drawn for a value, left to right.
pub open spec fn nth_digit(n: int, k: int) -> int
    recommends
        0 <= k < digit_count(n),
{
    if digit_count(n) == 3 {
        if k == 0 {
            n / 100
        } else if k == 1 {
            (n / 10) % 10
        } else {
            n % 10
        }
    } else if digit_count(n) == 2 {
        if k == 0 {
            (n / 10) % 10
        } else {
            n % 10
        }
    } else {
        n % 10
    }
}

/// Width in pixels of a drawn number: five scaled columns per digit, two
/// scaled columns of spacing after each digit but the last.
pub open spec fn number_width(n: int, scale: int) -> int {
    digit_count(n) * 7 * scale - 2 * scale
}

/// Whether drawing a number at scale paints the pixel at offset (dx, dy)
/// from its top-left corner: some digit of it, each standing seven scaled
/// columns after the one before, paints it.
pub open spec fn number_paints(n: int, scale: int, dx: int, dy: int) -> bool {
    exists|k: int|
        0 <= k < digit_count(n) && digit_paints(nth_digit(n, k), scale, dx - k * 7 * scale, dy)
}

/// The digits to draw for a value, left to right.
fn digits_of_number(number: u8) -> (digits: Vec<u8>)
    ensures
        digits@.len() == digit_count(number as int),
        forall|k: int| 0 <= k < digits@.len() ==> #[trigger] (digits@[k] as int) == nth_digit(
            number as int,
            k,
        ),
        forall|k: int| 0 <= k < digits@.len() ==> digits@[k] <= 9,
{
    let mut digits: Vec<u8> = Vec::new();
    if number >= 100 {
        digits.push(number / 100);
    }
    if number >= 10 {
        digits.push((number / 10) % 10);
    }
    digits.push(number % 10);
    digits
}

/// Draw a number of up to three digits at (x, y) and return the width of
/// the drawn text in pixels. Pixels of the number's digits take the color;
/// every other pixel of the panel, and every byte past the panel area,
/// stay.
#[verifier::loop_isolation(false)]
pub fn draw_number(image: &mut Vec<u8>, x: u16, y: u16, number: u8, color: u8, scale: u16) -> (width:
    u16)
    requires
        x + number_width(number as int, scale as int) <= u16::MAX,
        y + 7 * scale <= u16::MAX,
    ensures
        width == number_width(number as int, scale as int),
        final(image)@.len() == old(image)@.len(),
        forall|px: int, py: int|
            #![trigger pixel_index(px, py)]
            0 <= px < EPD_WIDTH && 0 <= py < EPD_HEIGHT && pixel_index(px, py) < old(image)@.len()
                ==> pixel_at(final(image)@, px, py) == (if number_paints(
                number as int,
                scale as int,
                px - x,
                py - y,
            ) {
                color & 0x0F
            } else {
                pixel_at(old(image)@, px, py)
            }),
        forall|i: int| 134400 <= i < old(image)@.len() ==> final(image)@[i] == old(image)@[i],
{
    let ghost orig = image@;
    let digits = digits_of_number(number);
    let count = digits.len();
    let char_width: u16 = 5 * scale;
    let char_spacing: u16 = 2 * scale;
    let mut current_x: u16 = x;
    let mut i: usize = 0;
    proof {
        assert(0 * 7 * (scale as int) == 0) by (nonlinear_arith);
        assert(digit_count(number as int) * 7 * (scale as int) - 2 * (scale as int) >= 5 * (
        scale as int)) by (nonlinear_arith)
            requires
                digit_count(number as int) >= 1,
                scale >= 0,
        ;
    }
    while i < count
        invariant
            i <= count,
            count == digit_count(number as int),
            i < count ==> current_x == x + i * 7 * scale,
            i < count ==> current_x + 5 * scale <= u16::MAX,
            i == count ==> current_x == x + number_width(number as int, scale as int),
            image@.len() == orig.len(),
            forall|px: int, py: int|
                #![trigger pixel_index(px, py)]
                0 <= px < EPD_WIDTH && 0 <= py < EPD_HEIGHT && pixel_index(px, py) < orig.len()
                    ==> pixel_at(image@, px, py) == (if (exists|k: int|
                    0 <= k < i && digit_paints(
                        nth_digit(number as int, k),
                        scale as int,
                        px - x - k * 7 * scale,
                        py - y,
                    )) {
                    color & 0x0F
                } else {
                    pixel_at(orig, px, py)
                }),
            forall|j: int| 134400 <= j < orig.len() ==> image@[j] == orig[j],
        decreases count - i,
    {
        let ghost before = image@;
        draw_digit(image, current_x, y, digits[i], color, scale);
        proof {
            assert forall|px: int, py: int|
                #![trigger pixel_index(px, py)]
                0 <= px < EPD_WIDTH && 0 <= py < EPD_HEIGHT && pixel_index(px, py)
                    < orig.len() implies pixel_at(image@, px, py) == (if (exists|k: int|
                0 <= k < i + 1 && digit_paints(
                    nth_digit(number as int, k),
                    scale as int,
                    px - x - k * 7 * scale,
                    py - y,
                )) {
                color & 0x0F
            } else {
                pixel_at(orig, px, py)
            }) by {
                if digit_paints(
                    digits@[i as int] as int,
                    scale as int,
                    px - current_x,
                    py - y,
                ) {
                    assert(0 <= i < i + 1 && digit_paints(
                        nth_digit(number as int, i as int),
                        scale as int,
                        px - x - i * 7 * scale,
                        py - y,
                    ));
                } else {
                    if exists|k: int|
                        0 <= k < i + 1 && digit_paints(
                            nth_digit(number as int, k),
                            scale as int,
                            px - x - k * 7 * scale,
                            py - y,
                        ) {
                        let k = choose|k: int|
                            0 <= k < i + 1 && digit_paints(
                                nth_digit(number as int, k),
                                scale as int,
                                px - x - k * 7 * scale,
                                py - y,
                            );
                        assert(k < i);
                    }
                }
            }
        }
        if i + 1 < count {
            proof {
                assert((i + 1) * 7 * scale == i * 7 * scale + 7 * scale) by (nonlinear_arith);
                assert((i + 2) * 7 * scale == (i + 1) * 7 * scale + 7 * scale) by (nonlinear_arith);
                assert((i + 2) * 7 * scale <= digit_count(number as int) * 7 * scale)
                    by (nonlinear_arith)
                    requires
                        i + 2 <= digit_count(number as int),
                        scale >= 0,
                ;
            }
            current_x = current_x + char_width + char_spacing;
        } else {
            proof {
                assert((i + 1) * 7 * scale == i * 7 * scale + 7 * scale) by (nonlinear_arith);
            }
            current_x = current_x + char_width;
        }
        i = i + 1;
    }
    current_x - x
}

/// Whether the display task hands this buffer to the panel: only a buffer
/// of exactly the panel's size is rendered; any other is skipped and the
/// panel is left unchanged.
pub fn should_render(image_len: usize) -> (render: bool)
    ensures
        render == (image_len == crate::network::IMAGE_BUFFER_SIZE),
{
    image_len == crate::network::IMAGE_BUFFER_SIZE
}

/// Draw the battery percentage into the top-left corner of the image, in
/// black at double scale, as the display task does before handing the
/// buffer to the panel.
pub fn draw_battery_overlay(image: &mut Vec<u8>, battery_percent: u8)
    ensures
        final(image)@.len() == old(image)@.len(),
        forall|px: int, py: int|
            #![trigger pixel_index(px, py)]
            0 <= px < EPD_WIDTH && 0 <= py < EPD_HEIGHT && pixel_index(px, py) < old(image)@.len()
                ==> pixel_at(final(image)@, px, py) == (if number_paints(
                battery_percent as int,
                2,
                px,
                py,
            ) {
                0
            } else {
                pixel_at(old(image)@, px, py)
            }),
        forall|i: int| 134400 <= i < old(image)@.len() ==> final(image)@[i] == old(image)@[i],
{
    let ghost orig = image@;
    draw_number(image, 0, 0, battery_percent, COLOR_BLACK, 2);
    proof {
        assert forall|px: int, py: int|
            #![trigger pixel_index(px, py)]
            0 <= px < EPD_WIDTH && 0 <= py < EPD_HEIGHT && pixel_index(px, py)
                < orig.len() implies pixel_at(image@, px, py) == (if number_paints(
            battery_percent as int,
            2,
            px,
            py,
        ) {
            0u8
        } else {
            pixel_at(orig, px, py)
        }) by {
            assert(0u8 & 0x0F == 0u8) by (bit_vector);
            assert(pixel_at(image@, px, py) == (if number_paints(
                battery_percent as int,
                2 as int,
                px - 0,
                py - 0,
            ) {
                COLOR_BLACK & 0x0F
            } else {
                pixel_at(orig, px, py)
            }));
            assert(number_paints(battery_percent as int, 2 as int, px - 0, py - 0)
                == number_paints(battery_percent as int, 2, px, py));
        }
    }
}

} // verus!
