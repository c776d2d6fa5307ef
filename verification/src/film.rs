//! The pixel buffer that a render fills.
//!
//! The buffer is flat and row-major with the top row first, three bytes per
//! pixel in the order red, green, blue. Pixels are addressed by their column
//! and by their row counted from the bottom of the image.
use vstd::prelude::*;
use crate::config::Config;

verus! {

/// Whether a buffer of the given size can be addressed with 32-bit offsets.
pub open spec fn fits(width: u32, height: u32) -> bool {
    width * height * 3 <= u32::MAX
}

/// The offset in the buffer of the red byte of the pixel in column `i` of
/// the row `j` from the bottom.
pub open spec fn offset(width: u32, height: u32, i: u32, j: u32) -> int {
    ((height - 1 - j) * width + i) * 3
}

/// The pixels of an image of the given size lie inside the buffer.
pub proof fn lemma_offset_in_range(width: u32, height: u32, i: u32, j: u32)
    requires
        i < width,
        j < height,
    ensures
        0 <= offset(width, height, i, j),
        offset(width, height, i, j) + 3 <= width * height * 3,
{
    let row = height - 1 - j;
    assert(0 <= row * width) by (nonlinear_arith)
        requires
            0 <= row,
            0 <= width,
    ;
    assert(row * width + width <= height * width) by (nonlinear_arith)
        requires
            row + 1 <= height,
            0 <= width,
    ;
    assert(height * width == width * height) by (nonlinear_arith);
}

/// Two different pixels never share a byte.
pub proof fn lemma_offsets_disjoint(width: u32, height: u32, i: u32, j: u32, k: u32, l: u32)
    requires
        i < width,
        j < height,
        k < width,
        l < height,
        i != k || j != l,
    ensures
        offset(width, height, i, j) + 3 <= offset(width, height, k, l) || offset(
            width,
            height,
            k,
            l,
        ) + 3 <= offset(width, height, i, j),
{
    let row_a = height - 1 - j;
    let row_b = height - 1 - l;
    if row_a < row_b {
        assert(row_a * width + width <= row_b * width) by (nonlinear_arith)
            requires
                row_a + 1 <= row_b,
                0 <= width,
        ;
    } else if row_b < row_a {
        assert(row_b * width + width <= row_a * width) by (nonlinear_arith)
            requires
                row_b + 1 <= row_a,
                0 <= width,
        ;
    }
}

/// The top row comes first, the pixels of a row follow each other from left
/// to right, and each row follows the one above it.
pub proof fn lemma_row_major(width: u32, height: u32, i: u32, j: u32)
    requires
        i < width,
        j < height,
    ensures
        offset(width, height, 0, (height - 1) as u32) == 0,
        i + 1 < width ==> offset(width, height, (i + 1) as u32, j) == offset(width, height, i, j)
            + 3,
        j > 0 ==> offset(width, height, i, (j - 1) as u32) == offset(width, height, i, j) + 3
            * width,
{
    let row = height - 1 - j;
    assert((row + 1) * width == row * width + width) by (nonlinear_arith);
    assert(0 * width == 0) by (nonlinear_arith);
}

/// The decimal notation of `n` in ASCII digits, the most significant first.
pub open spec fn decimal(n: nat) -> Seq<u8>
    decreases n,
{
    if n < 10 {
        seq![(48 + n) as u8]
    } else {
        decimal(n / 10).push((48 + n % 10) as u8)
    }
}

/// The header of a plain-text PPM image of the given size with 255 as the
/// largest channel value: the magic number of the format (the letter P and
/// the digit 3), the width and the height separated by a space, and `255`,
/// each on a line of its own.
pub open spec fn ppm_header(width: u32, height: u32) -> Seq<u8> {
    seq![80u8, 51u8, 10u8] + decimal(width as nat) + seq![32u8] + decimal(height as nat)
        + seq![10u8, 50u8, 53u8, 53u8, 10u8]
}

/// One pixel of a plain-text image: its three channels in decimal,
/// separated by spaces, on a line of their own.
pub open spec fn ppm_pixel(r: u8, g: u8, b: u8) -> Seq<u8> {
    decimal(r as nat) + seq![32u8] + decimal(g as nat) + seq![32u8] + decimal(b as nat)
        + seq![10u8]
}

/// The first `pixels` pixels of a buffer as plain text, in the order of the
/// buffer.
pub open spec fn ppm_body(data: Seq<u8>, pixels: nat) -> Seq<u8>
    decreases pixels,
{
    if pixels == 0 {
        Seq::empty()
    } else {
        let at = 3 * (pixels - 1);
        ppm_body(data, (pixels - 1) as nat) + ppm_pixel(data[at], data[at + 1], data[at + 2])
    }
}

/// Appends the decimal notation of `n`.
fn push_decimal(out: &mut Vec<u8>, n: u32)
    ensures
        final(out)@ == old(out)@ + decimal(n as nat),
    decreases n,
{
    if n >= 10 {
        push_decimal(out, n / 10);
    }
    out.push(48u8 + (n % 10) as u8);
}

/// An image under construction.
#[derive(Debug)]
pub struct Film {
    width: u32,
    height: u32,
    data: Vec<u8>,
}

impl Film {
    /// The buffer holds three bytes for every pixel and can be addressed
    /// with 32-bit offsets.
    #[verifier::type_invariant]
    closed spec fn sized(self) -> bool {
        fits(self.width, self.height) && self.data@.len() == self.width * self.height * 3
    }

    /// The number of columns.
    pub closed spec fn spec_width(&self) -> u32 {
        self.width
    }

    /// The number of rows.
    pub closed spec fn spec_height(&self) -> u32 {
        self.height
    }

    /// The bytes of the buffer.
    pub closed spec fn view(&self) -> Seq<u8> {
        self.data@
    }

    /// The colour of the pixel in column `i` of the row `j` from the
    /// bottom.
    pub open spec fn spec_pixel(&self, i: u32, j: u32) -> (u8, u8, u8) {
        let at = offset(self.spec_width(), self.spec_height(), i, j);
        (self@[at], self@[at + 1], self@[at + 2])
    }

    /// A black image of the given size.
    fn blank(width: u32, height: u32) -> (film: Film)
        requires
            fits(width, height),
        ensures
            film.spec_width() == width,
            film.spec_height() == height,
            film@ == Seq::new((width * height * 3) as nat, |k: int| 0u8),
    {
        assert(0 <= width * height) by (nonlinear_arith)
            requires
                0 <= width,
                0 <= height,
        ;
        let len: u32 = width * height * 3;
        let data: Vec<u8> = vec![0u8; len as usize];
        Film { width, height, data }
    }

    /// A black image of the given size, or nothing if its buffer could not
    /// be addressed with 32-bit offsets.
    pub fn new(width: u32, height: u32) -> (film: Option<Film>)
        ensures
            film.is_some() <==> fits(width, height),
            film matches Some(f) ==> f.spec_width() == width && f.spec_height() == height && f@
                == Seq::new((width * height * 3) as nat, |k: int| 0u8),
    {
        assert(width * height <= u32::MAX * u32::MAX) by (nonlinear_arith)
            requires
                0 <= width <= u32::MAX,
                0 <= height <= u32::MAX,
        ;
        let pixels: u64 = (width as u64) * (height as u64);
        if pixels > (u32::MAX / 3) as u64 {
            None
        } else {
            Some(Film::blank(width, height))
        }
    }

    /// The number of columns.
    #[verifier::when_used_as_spec(spec_width)]
    pub fn width(&self) -> (w: u32)
        ensures
            w == self.spec_width(),
    {
        self.width
    }

    /// The number of rows.
    #[verifier::when_used_as_spec(spec_height)]
    pub fn height(&self) -> (h: u32)
        ensures
            h == self.spec_height(),
    {
        self.height
    }

    /// The bytes of the buffer: three for every pixel, the top row first.
    pub fn bytes(&self) -> (data: &Vec<u8>)
        ensures
            data@ == self@,
            data@.len() == self.spec_width() * self.spec_height() * 3,
    {
        proof {
            use_type_invariant(self);
        }
        &self.data
    }

    /// The image as a plain-text PPM stream: the header, then one line of
    /// three decimal channel values for every pixel, the top row first.
    pub fn ppm(&self) -> (text: Vec<u8>)
        ensures
            text@ == ppm_header(self.spec_width(), self.spec_height()) + ppm_body(
                self@,
                (self.spec_width() * self.spec_height()) as nat,
            ),
    {
        proof {
            use_type_invariant(self);
        }
        let mut text: Vec<u8> = Vec::new();
        text.push(80u8);
        text.push(51u8);
        text.push(10u8);
        push_decimal(&mut text, self.width);
        text.push(32u8);
        push_decimal(&mut text, self.height);
        text.push(10u8);
        text.push(50u8);
        text.push(53u8);
        text.push(53u8);
        text.push(10u8);
        let pixels: usize = self.data.len() / 3;
        let mut k: usize = 0;
        while k < pixels
            invariant
                k <= pixels,
                pixels * 3 == self.data.len(),
                text@ == ppm_header(self.width, self.height) + ppm_body(self.data@, k as nat),
            decreases pixels - k,
        {
            let ghost before = text@;
            push_decimal(&mut text, self.data[3 * k] as u32);
            text.push(32u8);
            push_decimal(&mut text, self.data[3 * k + 1] as u32);
            text.push(32u8);
            push_decimal(&mut text, self.data[3 * k + 2] as u32);
            text.push(10u8);
            assert(text@ == before + ppm_pixel(
                self.data@[3 * k],
                self.data@[3 * k + 1],
                self.data@[3 * k + 2],
            ));
            k += 1;
        }
        text
    }

    /// The colour of the pixel in column `i` of the row `j` from the
    /// bottom.
    #[verifier::when_used_as_spec(spec_pixel)]
    pub fn pixel(&self, i: u32, j: u32) -> (rgb: (u8, u8, u8))
        requires
            i < self.spec_width(),
            j < self.spec_height(),
        ensures
            rgb == self.spec_pixel(i, j),
    {
        proof {
            use_type_invariant(self);
            lemma_offset_in_range(self.width, self.height, i, j);
        }
        let at = self.index_of(i, j);
        (self.data[at], self.data[at + 1], self.data[at + 2])
    }

    /// Where the pixel in column `i` of the row `j` from the bottom starts
    /// in the buffer.
    fn index_of(&self, i: u32, j: u32) -> (at: usize)
        requires
            i < self.spec_width(),
            j < self.spec_height(),
        ensures
            at == offset(self.spec_width(), self.spec_height(), i, j),
            at + 3 <= self@.len(),
    {
        proof {
            use_type_invariant(self);
            lemma_offset_in_range(self.width, self.height, i, j);
            let row = self.height - 1 - j;
            assert(0 <= row * self.width <= self.height * self.width) by (nonlinear_arith)
                requires
                    0 <= row <= self.height,
                    0 <= self.width,
            ;
            assert(self.height * self.width == self.width * self.height) by (nonlinear_arith);
        }
        let row: u32 = self.height - 1 - j;
        let at: u32 = (row * self.width + i) * 3;
        at as usize
    }

    /// Sets the pixel in column `i` of the row `j` from the bottom. The
    /// three bytes of that pixel change, and no other byte does.
    pub fn set_pixel(&mut self, i: u32, j: u32, r: u8, g: u8, b: u8)
        requires
            i < old(self).spec_width(),
            j < old(self).spec_height(),
        ensures
            final(self).spec_width() == old(self).spec_width(),
            final(self).spec_height() == old(self).spec_height(),
            final(self)@ == old(self)@.update(
                offset(old(self).spec_width(), old(self).spec_height(), i, j),
                r,
            ).update(offset(old(self).spec_width(), old(self).spec_height(), i, j) + 1, g).update(
                offset(old(self).spec_width(), old(self).spec_height(), i, j) + 2,
                b,
            ),
            final(self).spec_pixel(i, j) == (r, g, b),
            forall|k: u32, l: u32|
                k < old(self).spec_width() && l < old(self).spec_height() && (k != i || l != j)
                    ==> #[trigger] final(self).spec_pixel(k, l) == old(self).spec_pixel(k, l),
    {
        let at = self.index_of(i, j);
        proof {
            use_type_invariant(&*self);
            assert forall|k: u32, l: u32|
                k < self.width && l < self.height && (k != i || l != j) implies {
                let other = #[trigger] offset(self.width, self.height, k, l);
                0 <= other && other + 3 <= self.data@.len() && (other + 3 <= at || at + 3 <= other)
            } by {
                lemma_offset_in_range(self.width, self.height, k, l);
                lemma_offsets_disjoint(self.width, self.height, i, j, k, l);
            }
        }
        self.data[at] = r;
        self.data[at + 1] = g;
        self.data[at + 2] = b;
    }
}

/// Renders an image by asking `shade` for the colour of every pixel, row by
/// row from the bottom and from left to right within a row. Every pixel of
/// the result holds what `shade` returned for its column and row.
pub fn render<F: Fn(u32, u32) -> (u8, u8, u8)>(config: &Config, shade: F) -> (film: Film)
    requires
        forall|i: u32, j: u32|
            i < config.spec_width() && j < config.spec_height() ==> call_requires(shade, (i, j)),
    ensures
        film.spec_width() == config.spec_width(),
        film.spec_height() == config.spec_height(),
        forall|i: u32, j: u32|
            i < config.spec_width() && j < config.spec_height() ==> call_ensures(
                shade,
                (i, j),
                #[trigger] film.spec_pixel(i, j),
            ),
{
    let width = config.width();
    let height = config.height();
    let mut film = Film::blank(width, height);
    let mut j: u32 = 0;
    while j < height
        invariant
            j <= height,
            film.spec_width() == width,
            film.spec_height() == height,
            forall|i: u32, j: u32| i < width && j < height ==> call_requires(shade, (i, j)),
            forall|k: u32, l: u32|
                k < width && l < j ==> call_ensures(shade, (k, l), #[trigger] film.spec_pixel(k, l)),
        decreases height - j,
    {
        let mut i: u32 = 0;
        while i < width
            invariant
                i <= width,
                j < height,
                film.spec_width() == width,
                film.spec_height() == height,
                forall|i: u32, j: u32| i < width && j < height ==> call_requires(shade, (i, j)),
                forall|k: u32, l: u32|
                    k < width && (l < j || (l == j && k < i)) ==> call_ensures(
                        shade,
                        (k, l),
                        #[trigger] film.spec_pixel(k, l),
                    ),
            decreases width - i,
        {
            let (r, g, b) = shade(i, j);
            film.set_pixel(i, j, r, g, b);
            i += 1;
        }
        j += 1;
    }
    film
}

} // verus!
