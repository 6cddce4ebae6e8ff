//! The texture asset: a small grid of RGBA texels, held bottom row first as
//! the GPU addresses it.

use crate::color::Rgba;
use vstd::prelude::*;

verus! {

/// Why a texture could not be built from the pixels handed in.
#[derive(Copy, Clone, Debug, PartialEq, Eq, Structural)]
pub enum TextureError {
    /// The grid has no columns or no rows.
    ZeroSized,
    /// The number of bytes is not four per texel of the grid.
    LengthMismatch,
}

/// The rows of `data`, each `row` items long (a shorter remainder counts as
/// the last row), in the opposite order.
pub open spec fn rows_reversed(data: Seq<u8>, row: int) -> Seq<u8>
    decreases data.len(),
{
    if row <= 0 || data.len() <= row {
        data
    } else {
        rows_reversed(data.skip(row), row) + data.take(row)
    }
}

/// The texel at column `col` of row `row` in interleaved RGBA bytes that are
/// `width` texels wide.
pub open spec fn texel_at(data: Seq<u8>, width: int, col: int, row: int) -> Rgba {
    let at = 4 * (row * width + col);
    Rgba { r: data[at], g: data[at + 1], b: data[at + 2], a: data[at + 3] }
}

/// Reversing the rows of a grid of `rows` full rows keeps its length and
/// moves row `r` to row `rows - 1 - r`, leaving each row as it was.
pub proof fn lemma_rows_reversed_index(data: Seq<u8>, row: int, rows: int)
    requires
        row > 0,
        rows >= 0,
        data.len() == row * rows,
    ensures
        rows_reversed(data, row).len() == data.len(),
        forall|r: int, c: int|
            0 <= r < rows && 0 <= c < row ==> #[trigger] rows_reversed(data, row)[r * row + c]
                == data[(rows - 1 - r) * row + c],
    decreases rows,
{
    if rows <= 1 {
        assert(data.len() <= row) by (nonlinear_arith)
            requires
                data.len() == row * rows,
                rows <= 1,
                row > 0,
        ;
        let flipped = rows_reversed(data, row);
        assert forall|r: int, c: int| 0 <= r < rows && 0 <= c < row implies #[trigger] flipped[r
            * row + c] == data[(rows - 1 - r) * row + c] by {
            assert(r == 0);
        }
    } else {
        let rest = data.skip(row);
        let first = data.take(row);
        assert(row * rows == row * (rows - 1) + row) by (nonlinear_arith);
        assert(row * (rows - 1) >= row) by (nonlinear_arith)
            requires
                rows >= 2,
                row > 0,
        ;
        assert(rest.len() == row * (rows - 1));
        lemma_rows_reversed_index(rest, row, rows - 1);
        let flipped = rows_reversed(data, row);
        assert(flipped == rows_reversed(rest, row) + first);
        assert forall|r: int, c: int| 0 <= r < rows && 0 <= c < row implies #[trigger] flipped[r
            * row + c] == data[(rows - 1 - r) * row + c] by {
            if r < rows - 1 {
                assert(r * row + c < row * (rows - 1)) by (nonlinear_arith)
                    requires
                        0 <= r < rows - 1,
                        0 <= c < row,
                ;
                assert(r * row + c >= 0) by (nonlinear_arith)
                    requires
                        0 <= r,
                        0 <= c,
                        row > 0,
                ;
                assert(flipped[r * row + c] == rows_reversed(rest, row)[r * row + c]);
                assert((rows - 2 - r) * row + c + row == (rows - 1 - r) * row + c)
                    by (nonlinear_arith);
                assert(0 <= (rows - 2 - r) * row + c < row * (rows - 1)) by (nonlinear_arith)
                    requires
                        0 <= r < rows - 1,
                        0 <= c < row,
                ;
                assert(rest[(rows - 2 - r) * row + c] == data[(rows - 2 - r) * row + c + row]);
            } else {
                assert(r * row + c == row * (rows - 1) + c) by (nonlinear_arith)
                    requires
                        r == rows - 1,
                ;
                assert((rows - 1 - r) * row + c == c) by (nonlinear_arith)
                    requires
                        r == rows - 1,
                ;
                assert(flipped[r * row + c] == first[c]);
            }
        }
    }
}

/// Calls `glium::texture::RawImage2d::from_raw_rgba_reversed` and hands back
/// the bytes of the image it builds. That function cuts `data` into rows of
/// `4 * width` bytes, a shorter remainder last, and joins them again last
/// row first; it does not look at the height. It cannot cut rows of no
/// bytes, so `width` is not zero. The contract is taken on trust: it says
/// what glium's code does, and nothing here proves it.
#[verifier::external_body]
fn flip_rgba_rows(data: &Vec<u8>, width: u32, height: u32) -> (flipped: Vec<u8>)
    requires
        width > 0,
        4 * width <= usize::MAX,
    ensures
        flipped@ == rows_reversed(data@, 4 * width),
{
    glium::texture::RawImage2d::from_raw_rgba_reversed(data, (width, height)).data.into_owned()
}

/// A grid of RGBA texels, uploaded once and read by the foreground pass.
///
/// The bytes are interleaved RGBA, row after row, bottom row first: row `0`
/// is the row that texture coordinate `v = 0` addresses.
#[derive(Debug)]
pub struct TextureAsset {
    width: u32,
    height: u32,
    data: Vec<u8>,
}

impl View for TextureAsset {
    type V = Seq<u8>;

    /// The stored bytes, bottom row first.
    closed spec fn view(&self) -> Seq<u8> {
        self.data@
    }
}

impl TextureAsset {
    #[verifier::type_invariant]
    spec fn well_formed(self) -> bool {
        &&& self.width > 0
        &&& self.height > 0
        &&& self.data@.len() == 4 * self.width * self.height
    }

    /// Number of texels in a row.
    pub closed spec fn spec_width(self) -> int {
        self.width as int
    }

    /// Number of rows.
    pub closed spec fn spec_height(self) -> int {
        self.height as int
    }

    /// The texel at column `col` of row `row`, rows counted from the bottom.
    pub open spec fn spec_texel(self, col: int, row: int) -> Rgba {
        texel_at(self@, self.spec_width(), col, row)
    }

    /// Builds a texture from interleaved RGBA bytes given in image order, top
    /// row first, `width` texels to a row and `height` rows. The rows are
    /// stored in the opposite order, so that the texel at column `col` of
    /// stored row `row` is the one that the image has at column `col` of its
    /// row `height - 1 - row`.
    pub fn new(pixels: &Vec<u8>, width: u32, height: u32) -> (made: Result<
        TextureAsset,
        TextureError,
    >)
        ensures
            made == Err::<TextureAsset, TextureError>(TextureError::ZeroSized) <==> (width == 0
                || height == 0),
            made == Err::<TextureAsset, TextureError>(TextureError::LengthMismatch) <==> (width > 0
                && height > 0 && pixels@.len() != 4 * width * height),
            made is Ok <==> (width > 0 && height > 0 && pixels@.len() == 4 * width * height),
            made matches Ok(texture) ==> {
                &&& texture.spec_width() == width
                &&& texture.spec_height() == height
                &&& texture@ == rows_reversed(pixels@, 4 * width)
                &&& texture@.len() == pixels@.len()
                &&& forall|col: int, row: int|
                    0 <= col < width && 0 <= row < height ==> #[trigger] texture.spec_texel(
                        col,
                        row,
                    ) == texel_at(pixels@, width as int, col, height - 1 - row)
            },
    {
        if width == 0 || height == 0 {
            return Err(TextureError::ZeroSized);
        }
        proof {
            assert(4 * width * height <= 4 * 0xffff_ffff * 0xffff_ffff) by (nonlinear_arith)
                requires
                    width <= 0xffff_ffff,
                    height <= 0xffff_ffff,
            ;
        }
        let wanted: u128 = 4u128 * (width as u128) * (height as u128);
        if pixels.len() as u128 != wanted {
            return Err(TextureError::LengthMismatch);
        }
        proof {
            assert(4 * width <= 4 * width * height) by (nonlinear_arith)
                requires
                    width > 0,
                    height > 0,
            ;
            assert(pixels@.len() == (4 * width) * height) by (nonlinear_arith)
                requires
                    pixels@.len() == 4 * width * height,
            ;
            lemma_rows_reversed_index(pixels@, 4 * width, height as int);
        }
        let data = flip_rgba_rows(pixels, width, height);
        let texture = TextureAsset { width, height, data };
        proof {
            assert forall|col: int, row: int|
                0 <= col < width && 0 <= row < height implies #[trigger] texture.spec_texel(
                col,
                row,
            ) == texel_at(pixels@, width as int, col, height - 1 - row) by {
                lemma_texel_moves(pixels@, texture@, width as int, height as int, col, row);
            }
        }
        Ok(texture)
    }

    /// Number of texels in a row.
    pub fn width(&self) -> (w: u32)
        ensures
            w == self.spec_width(),
            w > 0,
    {
        proof {
            use_type_invariant(self);
        }
        self.width
    }

    /// Number of rows.
    pub fn height(&self) -> (h: u32)
        ensures
            h == self.spec_height(),
            h > 0,
    {
        proof {
            use_type_invariant(self);
        }
        self.height
    }

    /// The stored bytes, bottom row first, as they are uploaded.
    pub fn bytes(&self) -> (data: &Vec<u8>)
        ensures
            data@ == self@,
            data@.len() == 4 * self.spec_width() * self.spec_height(),
    {
        proof {
            use_type_invariant(self);
        }
        &self.data
    }

    /// The texel at column `col` of row `row`, rows counted from the bottom,
    /// or `None` where the grid has no such texel.
    pub fn texel(&self, col: u32, row: u32) -> (found: Option<Rgba>)
        ensures
            found == if col < self.spec_width() && row < self.spec_height() {
                Some(self.spec_texel(col as int, row as int))
            } else {
                None
            },
    {
        proof {
            use_type_invariant(self);
        }
        if col >= self.width || row >= self.height {
            return None;
        }
        let len: usize = self.data.len();
        proof {
            lemma_texel_in_bounds(self.width as int, self.height as int, col as int, row as int);
            assert(4 * (row * self.width + col) + 3 < len);
        }
        let at: usize = 4 * (row as usize * self.width as usize + col as usize);
        Some(
            Rgba {
                r: self.data[at],
                g: self.data[at + 1],
                b: self.data[at + 2],
                a: self.data[at + 3],
            },
        )
    }
}

/// The four bytes of a texel of a `width` by `height` grid lie inside the
/// grid's bytes.
proof fn lemma_texel_in_bounds(width: int, height: int, col: int, row: int)
    requires
        0 <= col < width,
        0 <= row < height,
    ensures
        0 <= row * width <= row * width + col,
        0 <= 4 * (row * width + col),
        4 * (row * width + col) + 3 < 4 * width * height,
{
    assert(0 <= row * width) by (nonlinear_arith)
        requires
            0 <= row,
            0 <= width,
    ;
    assert((row + 1) * width <= height * width) by (nonlinear_arith)
        requires
            row + 1 <= height,
            0 <= width,
    ;
    assert((row + 1) * width == row * width + width) by (nonlinear_arith);
    assert(4 * width * height == 4 * (height * width)) by (nonlinear_arith);
}

/// After the rows of a grid are reversed, byte `k` of the texel at
/// `(col, row)` is byte `k` of the texel that was at `(col, height - 1 - row)`.
proof fn lemma_texel_byte_moves(
    pixels: Seq<u8>,
    flipped: Seq<u8>,
    width: int,
    height: int,
    col: int,
    row: int,
    k: int,
)
    requires
        0 <= col < width,
        0 <= row < height,
        0 <= k < 4,
        pixels.len() == (4 * width) * height,
        flipped == rows_reversed(pixels, 4 * width),
    ensures
        flipped[4 * (row * width + col) + k] == pixels[4 * ((height - 1 - row) * width + col) + k],
{
    lemma_rows_reversed_index(pixels, 4 * width, height);
    let from = height - 1 - row;
    let c = 4 * col + k;
    assert(4 * (row * width + col) + k == row * (4 * width) + c) by (nonlinear_arith)
        requires
            c == 4 * col + k,
    ;
    assert(4 * (from * width + col) + k == from * (4 * width) + c) by (nonlinear_arith)
        requires
            c == 4 * col + k,
    ;
    assert(flipped[row * (4 * width) + c] == pixels[(height - 1 - row) * (4 * width) + c]);
}

/// After the rows of a grid are reversed, the texel at `(col, row)` is the
/// one that was at `(col, height - 1 - row)`.
proof fn lemma_texel_moves(
    pixels: Seq<u8>,
    flipped: Seq<u8>,
    width: int,
    height: int,
    col: int,
    row: int,
)
    requires
        0 <= col < width,
        0 <= row < height,
        pixels.len() == (4 * width) * height,
        flipped == rows_reversed(pixels, 4 * width),
    ensures
        texel_at(flipped, width, col, row) == texel_at(pixels, width, col, height - 1 - row),
{
    lemma_texel_byte_moves(pixels, flipped, width, height, col, row, 0);
    lemma_texel_byte_moves(pixels, flipped, width, height, col, row, 1);
    lemma_texel_byte_moves(pixels, flipped, width, height, col, row, 2);
    lemma_texel_byte_moves(pixels, flipped, width, height, col, row, 3);
}

} // verus!
