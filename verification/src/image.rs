//! Fitting a picture into a box of terminal cells, and turning its pixels
//! into cells.

use crate::utils::{decimal_text, push_char, ImageMode};
use ::image::imageops::FilterType;
use ::image::{DynamicImage, RgbaImage};
use ansi_rgb::Background;
use rgb::RGB8;
use vstd::prelude::*;
use vstd::string::*;

verus! {

/// A decoded picture: rows of pixels from the top, each pixel four bytes,
/// red, green, blue and alpha.
#[derive(Debug)]
pub struct PixelBuffer {
    width: u32,
    height: u32,
    data: Vec<u8>,
}

/// Whether `len` bytes are exactly a `width` x `height` picture with at least
/// one pixel.
pub open spec fn holds_picture(width: u32, height: u32, len: nat) -> bool {
    width >= 1 && height >= 1 && len == 4 * width * height
}

impl PixelBuffer {
    #[verifier::type_invariant]
    spec fn inv(self) -> bool {
        holds_picture(self.width, self.height, self.data@.len())
    }

    /// Width in pixels.
    pub closed spec fn spec_width(self) -> u32 {
        self.width
    }

    /// Height in pixels.
    pub closed spec fn spec_height(self) -> u32 {
        self.height
    }

    /// The bytes of the pixels.
    pub closed spec fn spec_data(self) -> Seq<u8> {
        self.data@
    }

    /// The size in cells at which the picture is shown in a picture area of
    /// `term_w` x `term_h` cells.
    pub open spec fn spec_fit(self, term_w: u32, term_h: u32) -> (int, int) {
        fit_reserved(
            self.spec_width() as int,
            self.spec_height() as int,
            term_w as int,
            term_h as int,
        )
    }

    /// Takes `data` as a picture of `width` x `height` pixels, if it is one.
    pub fn new(width: u32, height: u32, data: Vec<u8>) -> (picture: Option<PixelBuffer>)
        ensures
            picture is Some <==> holds_picture(width, height, data@.len()),
            picture matches Some(p) ==> p.spec_width() == width && p.spec_height() == height
                && p.spec_data() == data@,
    {
        if width < 1 || height < 1 {
            return None;
        }
        let quad: u128 = 4 * (width as u128);
        assert(quad * height == 4 * width * height && quad * height <= 0x4_0000_0000_0000_0000)
            by (nonlinear_arith)
            requires
                quad == 4 * width,
                width < 0x1_0000_0000,
                height < 0x1_0000_0000,
        ;
        let wanted: u128 = quad * (height as u128);
        if data.len() as u128 != wanted {
            return None;
        }
        Some(PixelBuffer { width, height, data })
    }

    /// Width in pixels.
    pub fn width(&self) -> (width: u32)
        ensures
            width == self.spec_width(),
            width >= 1,
    {
        proof {
            use_type_invariant(self);
        }
        self.width
    }

    /// Height in pixels.
    pub fn height(&self) -> (height: u32)
        ensures
            height == self.spec_height(),
            height >= 1,
    {
        proof {
            use_type_invariant(self);
        }
        self.height
    }

    /// Width and height in pixels.
    pub fn dimensions(&self) -> (size: (u32, u32))
        ensures
            size == (self.spec_width(), self.spec_height()),
    {
        (self.width, self.height)
    }

    /// The bytes of the pixels.
    pub fn data(&self) -> (data: &Vec<u8>)
        ensures
            data@ == self.spec_data(),
            holds_picture(self.spec_width(), self.spec_height(), data@.len()),
    {
        proof {
            use_type_invariant(self);
        }
        &self.data
    }
}

/// One terminal cell of a rendered picture.
#[derive(Debug, Clone, Copy, PartialEq, Eq, Structural)]
pub enum Cell {
    /// No background colour: the pixel was fully transparent.
    Blank,
    /// A background of this red, green and blue.
    Colored(u8, u8, u8),
}

/// The rows of a grid of cells, as sequences.
pub open spec fn grid_rows(grid: Seq<Vec<Cell>>) -> Seq<Seq<Cell>> {
    Seq::new(grid.len(), |i: int| grid[i]@)
}

/// A copy of the grid, row by row.
pub fn duplicate_grid(grid: &Vec<Vec<Cell>>) -> (copy: Vec<Vec<Cell>>)
    ensures
        grid_rows(copy@) == grid_rows(grid@),
{
    let mut copy: Vec<Vec<Cell>> = Vec::new();
    let mut y: usize = 0;
    while y < grid.len()
        invariant
            y <= grid.len(),
            copy@.len() == y,
            forall|i: int| 0 <= i < y ==> (#[trigger] copy@[i])@ == grid@[i]@,
        decreases grid.len() - y,
    {
        let row = &grid[y];
        let mut line: Vec<Cell> = Vec::new();
        let mut x: usize = 0;
        while x < row.len()
            invariant
                x <= row.len(),
                line@ == row@.take(x as int),
            decreases row.len() - x,
        {
            line.push(row[x]);
            assert(row@.take(x + 1) =~= row@.take(x as int).push(row@[x as int]));
            x += 1;
        }
        assert(row@.take(row@.len() as int) =~= row@);
        copy.push(line);
        y += 1;
    }
    assert(grid_rows(copy@) =~= grid_rows(grid@));
    copy
}

/// The larger of `1` and `x`.
pub open spec fn at_least_one(x: int) -> int {
    if x < 1 {
        1
    } else {
        x
    }
}

/// Whether `fit` is defined for these sizes: the width-bound scaling divides
/// by the source width.
pub open spec fn fit_defined(width: int, height: int, bound_width: int, bound_height: int) -> bool {
    width > 0 || bound_width > 0 || height <= 2 * bound_height
}

/// Whether the source lies inside the box once the box height is doubled.
pub open spec fn fits_inside(width: int, height: int, bound_width: int, bound_height: int) -> bool {
    width <= bound_width && height <= 2 * bound_height
}

/// Whether the width of the box is the binding constraint: scaling to the
/// box width gives an image no larger than scaling to the doubled box height.
/// Ties go to the width.
pub open spec fn width_bound(width: int, height: int, bound_width: int, bound_height: int) -> bool {
    bound_width * height <= width * (2 * bound_height)
}

/// Size in cells of a `width` x `height` picture inside a box of
/// `bound_width` x `bound_height` cells, a cell being twice as tall as wide.
pub open spec fn fit(width: int, height: int, bound_width: int, bound_height: int) -> (int, int) {
    if fits_inside(width, height, bound_width, bound_height) {
        (width, at_least_one(height / 2 + height % 2))
    } else if width_bound(width, height, bound_width, bound_height) {
        (bound_width, at_least_one((height * bound_width / width) / 2))
    } else {
        (width * (2 * bound_height) / height, at_least_one(bound_height))
    }
}

/// The size `fit` gives, with one row taken off when the picture would fill
/// the box height exactly.
pub open spec fn fit_reserved(width: int, height: int, bound_width: int, bound_height: int) -> (
    int,
    int,
) {
    let (w, h) = fit(width, height, bound_width, bound_height);
    if h == bound_height {
        (w, h - 1)
    } else {
        (w, h)
    }
}

/// Whether both sides of a size are numbers of 32 bits.
pub open spec fn fits_u32(size: (int, int)) -> bool {
    0 <= size.0 <= u32::MAX && 0 <= size.1 <= u32::MAX
}

/// In a non-empty box the fitted size never exceeds the box.
pub proof fn lemma_fit_within_box(width: int, height: int, bound_width: int, bound_height: int)
    requires
        0 <= width,
        0 <= height,
        1 <= bound_width,
        1 <= bound_height,
    ensures
        0 <= fit(width, height, bound_width, bound_height).0 <= bound_width,
        1 <= fit(width, height, bound_width, bound_height).1 <= bound_height,
{
    let dbh = 2 * bound_height;
    if fits_inside(width, height, bound_width, bound_height) {
    } else if width_bound(width, height, bound_width, bound_height) {
        assert(width > 0) by (nonlinear_arith)
            requires
                bound_width * height <= width * dbh,
                !(width <= bound_width && height <= dbh),
                0 <= width,
                0 <= height,
                1 <= bound_width,
                1 <= bound_height,
                dbh == 2 * bound_height,
        ;
        let q = height * bound_width / width;
        assert(0 <= q <= dbh) by (nonlinear_arith)
            requires
                q == height * bound_width / width,
                bound_width * height <= width * dbh,
                width > 0,
                0 <= height,
                1 <= bound_width,
        ;
    } else {
        assert(height > 0) by (nonlinear_arith)
            requires
                bound_width * height > width * dbh,
                0 <= width,
                0 <= dbh,
                0 <= height,
        ;
        let q = width * dbh / height;
        assert(0 <= q < bound_width) by (nonlinear_arith)
            requires
                q == width * dbh / height,
                width * dbh < bound_width * height,
                height > 0,
                0 <= width,
                0 <= dbh,
        ;
    }
}

/// Fits a `width` x `height` picture into a box of `bound_width` x
/// `bound_height` terminal cells, keeping its aspect ratio. A cell counts as
/// two pixels tall: the box height is doubled first, and the resulting height
/// is halved again, never below one row.
pub fn get_dimensions(width: u32, height: u32, bound_width: u32, bound_height: u32) -> (size: (
    u32,
    u32,
))
    requires
        fit_defined(width as int, height as int, bound_width as int, bound_height as int),
    ensures
        (size.0 as int, size.1 as int) == fit(
            width as int,
            height as int,
            bound_width as int,
            bound_height as int,
        ),
        bound_width >= 1 && bound_height >= 1 ==> size.0 <= bound_width && size.1 <= bound_height,
        size.1 >= 1,
{
    let w: u128 = width as u128;
    let h: u128 = height as u128;
    let bw: u128 = bound_width as u128;
    let dbh: u128 = 2 * (bound_height as u128);
    proof {
        if bound_width >= 1 && bound_height >= 1 {
            lemma_fit_within_box(
                width as int,
                height as int,
                bound_width as int,
                bound_height as int,
            );
        }
    }
    if w <= bw && h <= dbh {
        let half: u32 = height / 2 + height % 2;
        return (width, if half < 1 { 1 } else { half });
    }
    assert(w * dbh <= 0x2_0000_0000_0000_0000 && bw * h <= 0x1_0000_0000_0000_0000)
        by (nonlinear_arith)
        requires
            w < 0x1_0000_0000,
            h < 0x1_0000_0000,
            bw < 0x1_0000_0000,
            dbh < 0x2_0000_0000,
    ;
    let ratio: u128 = w * dbh;
    let nratio: u128 = bw * h;
    if nratio <= ratio {
        assert(w > 0 && (h * bw) / (w as int) <= dbh) by (nonlinear_arith)
            requires
                bw * h <= w * dbh,
                !(w <= bw && h <= dbh),
                w > 0 || bw > 0 || h <= dbh,
        ;
        let intermediate: u128 = h * bw / w;
        let half: u128 = intermediate / 2;
        (bound_width, if half < 1 { 1 } else { half as u32 })
    } else {
        assert(h > 0 && (w * dbh) / (h as int) <= bw) by (nonlinear_arith)
            requires
                bw * h > w * dbh,
        ;
        let intermediate: u128 = w * dbh / h;
        (intermediate as u32, if bound_height < 1 { 1 } else { bound_height })
    }
}

/// The cell of a pixel: blank if the pixel is fully transparent, else a
/// background of its colour.
pub open spec fn pixel_cell(r: u8, g: u8, b: u8, a: u8) -> Cell {
    if a == 0 {
        Cell::Blank
    } else {
        Cell::Colored(r, g, b)
    }
}

/// The luma of a colour: 0.2126 red, 0.7152 green and 0.0722 blue, rounded
/// down.
pub open spec fn luma(r: u8, g: u8, b: u8) -> u8 {
    ((2126 * r + 7152 * g + 722 * b) / 10000) as u8
}

/// The luma-and-alpha bytes of a buffer of red, green, blue and alpha bytes:
/// two bytes per pixel, the pixel's luma and its alpha.
pub open spec fn luma_alpha_of(rgba: Seq<u8>) -> Seq<u8> {
    Seq::new(
        (rgba.len() / 4 * 2) as nat,
        |i: int|
            if i % 2 == 0 {
                luma(rgba[4 * (i / 2)], rgba[4 * (i / 2) + 1], rgba[4 * (i / 2) + 2])
            } else {
                rgba[4 * (i / 2) + 3]
            },
    )
}

/// The grid of a `width` x `height` buffer of red, green, blue and alpha
/// bytes: one row of cells per row of pixels, one cell per pixel.
pub open spec fn rgba_cells(data: Seq<u8>, width: int, height: int) -> Seq<Seq<Cell>> {
    Seq::new(
        height as nat,
        |y: int|
            Seq::new(
                width as nat,
                |x: int|
                    pixel_cell(
                        data[4 * (y * width + x)],
                        data[4 * (y * width + x) + 1],
                        data[4 * (y * width + x) + 2],
                        data[4 * (y * width + x) + 3],
                    ),
            ),
    )
}

/// The grid of a `width` x `height` buffer of luma and alpha bytes: each cell
/// a gray of the pixel's luma.
pub open spec fn luma_alpha_cells(data: Seq<u8>, width: int, height: int) -> Seq<Seq<Cell>> {
    Seq::new(
        height as nat,
        |y: int|
            Seq::new(
                width as nat,
                |x: int|
                    pixel_cell(
                        data[2 * (y * width + x)],
                        data[2 * (y * width + x)],
                        data[2 * (y * width + x)],
                        data[2 * (y * width + x) + 1],
                    ),
            ),
    )
}

/// The bytes that triangle resampling makes of a `width` x `height` buffer of
/// red, green, blue and alpha bytes at `new_width` x `new_height`.
pub uninterp spec fn triangle_resized(
    data: Seq<u8>,
    width: u32,
    height: u32,
    new_width: u32,
    new_height: u32,
) -> Seq<u8>;

/// The largest width or height, in pixels, that is handed to the resampler.
///
/// The resampler works in 32-bit floats. For each target pixel it computes
/// the centre `(i + 0.5) * old / new` in the source, weighs the source pixels
/// of a window round that centre by their distance from it, and divides by
/// the sum of the weights. Up to this limit `i + 0.5` is exact, the quotient
/// and the product round by less than an eighth of a pixel together, and
/// taking the half pixel off again rounds by a sixteenth at most. So the
/// computed centre is less than a fifth of a pixel off, the source pixel that
/// holds the true centre lies in the window less than one pixel from the
/// computed one, and its weight is positive: the sum is never zero. Far
/// beyond the limit the half pixel is lost in rounding, a window can be left
/// with weights of zero only, and the resampler fails on the quotient.
pub const RESAMPLE_LIMIT: u32 = 1048576;

/// Whether a picture of `width` x `height` pixels can be resampled to
/// `new_width` x `new_height`: no side is beyond the resampler's limit, and
/// its buffers can be allocated. It first builds `width` x `new_height`
/// pixels of four 32-bit floats.
pub open spec fn raster_fits(width: u32, height: u32, new_width: u32, new_height: u32) -> bool {
    &&& width <= RESAMPLE_LIMIT
    &&& height <= RESAMPLE_LIMIT
    &&& new_width <= RESAMPLE_LIMIT
    &&& new_height <= RESAMPLE_LIMIT
    &&& 16 * width * new_height <= isize::MAX
    &&& 4 * new_width * new_height <= isize::MAX
}

/// `image::imageops::resize` with `FilterType::Triangle`, on an RGBA8 buffer
/// built by `RgbaImage::from_raw`. `from_raw` takes a buffer that holds at
/// least four bytes per pixel, so here it gives `Some`; the result is named,
/// and is the raw buffer of an image of the new size, four bytes per pixel.
/// The sizes are held to `raster_fits`: within it every weight sum of the
/// resampler is positive and every buffer it builds can be allocated.
#[verifier::external_body]
fn resize_rgba(data: &Vec<u8>, width: u32, height: u32, new_width: u32, new_height: u32) -> (out:
    Option<Vec<u8>>)
    requires
        holds_picture(width, height, data@.len()),
        raster_fits(width, height, new_width, new_height),
    ensures
        out is Some,
        out->0@ == triangle_resized(data@, width, height, new_width, new_height),
        out->0@.len() == 4 * new_width * new_height,
{
    let source = RgbaImage::from_raw(width, height, data.clone())?;
    Some(::image::imageops::resize(&source, new_width, new_height, FilterType::Triangle).into_raw())
}

/// `DynamicImage::to_luma_alpha8` on an RGBA8 image built by
/// `RgbaImage::from_raw`: each pixel becomes its luma, computed in integers
/// as (2126 r + 7152 g + 722 b) / 10000, and its unchanged alpha.
#[verifier::external_body]
fn to_luma_alpha(data: &Vec<u8>, width: u32, height: u32) -> (out: Option<Vec<u8>>)
    requires
        data@.len() == 4 * width * height,
    ensures
        out is Some,
        out->0@ == luma_alpha_of(data@),
{
    let source = RgbaImage::from_raw(width, height, data.clone())?;
    Some(DynamicImage::ImageRgba8(source).to_luma_alpha8().into_raw())
}

/// The cell of a pixel.
fn cell_of(r: u8, g: u8, b: u8, a: u8) -> (cell: Cell)
    ensures
        cell == pixel_cell(r, g, b, a),
{
    if a == 0 {
        Cell::Blank
    } else {
        Cell::Colored(r, g, b)
    }
}

/// Offsets of the pixels of a `width` x `height` picture stay inside its
/// buffer of `step` bytes per pixel.
proof fn lemma_pixel_offset(x: int, y: int, width: int, height: int, step: int)
    requires
        0 <= x < width,
        0 <= y < height,
        0 < step,
    ensures
        0 <= step * (y * width + x),
        step * (y * width + x) + step <= step * width * height,
        step * (y * width + x) + step == step * (y * width + (x + 1)),
        step * ((y + 1) * width + 0) == step * (y * width + width),
{
    assert(0 <= y * width) by (nonlinear_arith)
        requires
            0 <= y,
            0 <= width,
    ;
    assert((y + 1) * width <= height * width) by (nonlinear_arith)
        requires
            y + 1 <= height,
            0 <= width,
    ;
    assert((y + 1) * width == y * width + width) by (nonlinear_arith);
    assert(step * (y * width + x) + step == step * (y * width + (x + 1))) by (nonlinear_arith);
    assert(step * (y * width + x + 1) <= step * (height * width)) by (nonlinear_arith)
        requires
            y * width + x + 1 <= height * width,
            0 < step,
    ;
    assert(0 <= step * (y * width + x)) by (nonlinear_arith)
        requires
            0 <= y * width + x,
            0 < step,
    ;
    assert(step * (height * width) == step * width * height) by (nonlinear_arith);
}

/// The grid of a `width` x `height` buffer of red, green, blue and alpha
/// bytes: one cell per pixel, blank where the pixel is fully transparent,
/// else with the pixel's colour as background.
pub fn cells_from_rgba(data: &Vec<u8>, width: u32, height: u32) -> (grid: Vec<Vec<Cell>>)
    requires
        data@.len() == 4 * width * height,
    ensures
        grid_rows(grid@) == rgba_cells(data@, width as int, height as int),
        grid@.len() == height,
        forall|y: int| 0 <= y < height ==> (#[trigger] grid@[y])@.len() == width,
        forall|y: int, x: int|
            0 <= y < height && 0 <= x < width && data@[4 * (y * width + x) + 3] == 0
                ==> #[trigger] grid@[y]@[x] == Cell::Blank,
{
    let mut grid: Vec<Vec<Cell>> = Vec::new();
    let mut offset: usize = 0;
    let mut y: u32 = 0;
    while y < height
        invariant
            y <= height,
            data@.len() == 4 * width * height,
            offset == 4 * (y * width + 0),
            grid@.len() == y,
            forall|j: int|
                0 <= j < y ==> (#[trigger] grid@[j])@ == rgba_cells(
                    data@,
                    width as int,
                    height as int,
                )[j],
        decreases height - y,
    {
        let mut line: Vec<Cell> = Vec::new();
        let mut x: u32 = 0;
        while x < width
            invariant
                x <= width,
                y < height,
                data@.len() == 4 * width * height,
                offset == 4 * (y * width + x),
                line@.len() == x,
                forall|i: int|
                    0 <= i < x ==> #[trigger] line@[i] == rgba_cells(
                        data@,
                        width as int,
                        height as int,
                    )[y as int][i],
            decreases width - x,
        {
            proof {
                lemma_pixel_offset(x as int, y as int, width as int, height as int, 4);
            }
            line.push(
                cell_of(data[offset], data[offset + 1], data[offset + 2], data[offset + 3]),
            );
            assert(offset + 4 <= data.len());
            offset = offset + 4;
            x = x + 1;
        }
        proof {
            if width > 0 {
                lemma_pixel_offset(0, y as int, width as int, height as int, 4);
            } else {
                assert(4 * ((y + 1) * width + 0) == 4 * (y * width + width)) by (nonlinear_arith)
                    requires
                        width == 0,
                ;
            }
            assert(line@ =~= rgba_cells(data@, width as int, height as int)[y as int]);
        }
        grid.push(line);
        y = y + 1;
    }
    assert(grid_rows(grid@) =~= rgba_cells(data@, width as int, height as int));
    grid
}

/// The grid of a `width` x `height` buffer of luma and alpha bytes: one cell
/// per pixel, blank where the pixel is fully transparent, else with a gray
/// of the pixel's luma as background.
pub fn cells_from_luma_alpha(data: &Vec<u8>, width: u32, height: u32) -> (grid: Vec<Vec<Cell>>)
    requires
        data@.len() == 2 * width * height,
    ensures
        grid_rows(grid@) == luma_alpha_cells(data@, width as int, height as int),
        grid@.len() == height,
        forall|y: int| 0 <= y < height ==> (#[trigger] grid@[y])@.len() == width,
        forall|y: int, x: int|
            0 <= y < height && 0 <= x < width && data@[2 * (y * width + x) + 1] == 0
                ==> #[trigger] grid@[y]@[x] == Cell::Blank,
{
    let mut grid: Vec<Vec<Cell>> = Vec::new();
    let mut offset: usize = 0;
    let mut y: u32 = 0;
    while y < height
        invariant
            y <= height,
            data@.len() == 2 * width * height,
            offset == 2 * (y * width + 0),
            grid@.len() == y,
            forall|j: int|
                0 <= j < y ==> (#[trigger] grid@[j])@ == luma_alpha_cells(
                    data@,
                    width as int,
                    height as int,
                )[j],
        decreases height - y,
    {
        let mut line: Vec<Cell> = Vec::new();
        let mut x: u32 = 0;
        while x < width
            invariant
                x <= width,
                y < height,
                data@.len() == 2 * width * height,
                offset == 2 * (y * width + x),
                line@.len() == x,
                forall|i: int|
                    0 <= i < x ==> #[trigger] line@[i] == luma_alpha_cells(
                        data@,
                        width as int,
                        height as int,
                    )[y as int][i],
            decreases width - x,
        {
            proof {
                lemma_pixel_offset(x as int, y as int, width as int, height as int, 2);
            }
            let gray = data[offset];
            line.push(cell_of(gray, gray, gray, data[offset + 1]));
            assert(offset + 2 <= data.len());
            offset = offset + 2;
            x = x + 1;
        }
        proof {
            if width > 0 {
                lemma_pixel_offset(0, y as int, width as int, height as int, 2);
            } else {
                assert(2 * ((y + 1) * width + 0) == 2 * (y * width + width)) by (nonlinear_arith)
                    requires
                        width == 0,
                ;
            }
            assert(line@ =~= luma_alpha_cells(data@, width as int, height as int)[y as int]);
        }
        grid.push(line);
        y = y + 1;
    }
    assert(grid_rows(grid@) =~= luma_alpha_cells(data@, width as int, height as int));
    grid
}

/// The size, in cells, at which a picture is shown in a picture area of
/// `term_w` x `term_h` cells: fitted into the area, and one row shorter when
/// it would fill the height of the area exactly.
pub fn image_fit_size(img: &PixelBuffer, term_w: u32, term_h: u32) -> (size: (u32, u32))
    ensures
        (size.0 as int, size.1 as int) == img.spec_fit(term_w, term_h),
        fits_u32(img.spec_fit(term_w, term_h)),
        term_w >= 1 && term_h >= 1 ==> size.0 <= term_w && size.1 <= term_h,
{
    let (w, h) = get_dimensions(img.width(), img.height(), term_w, term_h);
    let h = if h == term_h {
        h - 1
    } else {
        h
    };
    (w, h)
}

/// The cell of pixel (`x`, `y`) of a resampled buffer `width` pixels wide:
/// blank if the pixel is fully transparent, else a background of its colour,
/// or in gray-scale mode a gray of its luma.
pub open spec fn resampled_cell(resized: Seq<u8>, width: int, x: int, y: int, mode: ImageMode) -> Cell {
    let i = 4 * (y * width + x);
    match mode {
        ImageMode::Rgba => pixel_cell(resized[i], resized[i + 1], resized[i + 2], resized[i + 3]),
        ImageMode::GrayScale => pixel_cell(
            luma(resized[i], resized[i + 1], resized[i + 2]),
            luma(resized[i], resized[i + 1], resized[i + 2]),
            luma(resized[i], resized[i + 1], resized[i + 2]),
            resized[i + 3],
        ),
    }
}

/// The grid that a picture of `width` x `height` pixels gives at `new_width`
/// x `new_height` cells: the picture resampled to one pixel per cell, then
/// each pixel turned into its cell, in colour or in gray. It has `new_height`
/// rows of `new_width` cells.
pub open spec fn raster(
    data: Seq<u8>,
    width: u32,
    height: u32,
    new_width: u32,
    new_height: u32,
    mode: ImageMode,
) -> Seq<Seq<Cell>> {
    Seq::new(
        new_height as nat,
        |y: int|
            Seq::new(
                new_width as nat,
                |x: int|
                    resampled_cell(
                        triangle_resized(data, width, height, new_width, new_height),
                        new_width as int,
                        x,
                        y,
                        mode,
                    ),
            ),
    )
}

/// Whether the picture can be resampled to `new_width` x `new_height`.
pub fn can_rasterize(img: &PixelBuffer, new_width: u32, new_height: u32) -> (yes: bool)
    ensures
        yes == raster_fits(img.spec_width(), img.spec_height(), new_width, new_height),
{
    if img.width() > RESAMPLE_LIMIT || img.height() > RESAMPLE_LIMIT || new_width > RESAMPLE_LIMIT
        || new_height > RESAMPLE_LIMIT {
        return false;
    }
    let width: u128 = img.width() as u128;
    let nw: u128 = new_width as u128;
    let nh: u128 = new_height as u128;
    let limit: u128 = isize::MAX as u128;
    assert(width * nh <= 0x1_0000_0000_0000_0000 && nw * nh <= 0x1_0000_0000_0000_0000)
        by (nonlinear_arith)
        requires
            width < 0x1_0000_0000,
            nw < 0x1_0000_0000,
            nh < 0x1_0000_0000,
    ;
    let floats: u128 = width * nh;
    let bytes: u128 = nw * nh;
    assert(16 * floats == 16 * img.spec_width() * new_height) by (nonlinear_arith)
        requires
            floats == img.spec_width() * new_height,
    ;
    assert(4 * bytes == 4 * new_width * new_height) by (nonlinear_arith)
        requires
            bytes == new_width * new_height,
    ;
    16 * floats <= limit && 4 * bytes <= limit
}

/// Renders a picture at `new_width` x `new_height` cells: resamples it with a
/// triangle filter to one pixel per cell and gives each pixel its cell. A
/// fully transparent pixel gives a blank cell; any other gives a background
/// of its colour, or in gray-scale mode of its luma.
pub fn rasterize(img: &PixelBuffer, new_width: u32, new_height: u32, mode: ImageMode) -> (grid:
    Vec<Vec<Cell>>)
    requires
        raster_fits(img.spec_width(), img.spec_height(), new_width, new_height),
    ensures
        grid_rows(grid@) == raster(
            img.spec_data(),
            img.spec_width(),
            img.spec_height(),
            new_width,
            new_height,
            mode,
        ),
        grid@.len() == new_height,
        forall|y: int| 0 <= y < new_height ==> (#[trigger] grid@[y])@.len() == new_width,
        triangle_resized(
            img.spec_data(),
            img.spec_width(),
            img.spec_height(),
            new_width,
            new_height,
        ).len() == 4 * new_width * new_height,
        forall|y: int, x: int|
            0 <= y < new_height && 0 <= x < new_width ==> #[trigger] grid@[y]@[x]
                == resampled_cell(
                triangle_resized(
                    img.spec_data(),
                    img.spec_width(),
                    img.spec_height(),
                    new_width,
                    new_height,
                ),
                new_width as int,
                x,
                y,
                mode,
            ),
        forall|y: int, x: int|
            0 <= y < new_height && 0 <= x < new_width && triangle_resized(
                img.spec_data(),
                img.spec_width(),
                img.spec_height(),
                new_width,
                new_height,
            )[4 * (y * new_width + x) + 3] == 0 ==> #[trigger] grid@[y]@[x] == Cell::Blank,
{
    let resized = match resize_rgba(img.data(), img.width(), img.height(), new_width, new_height) {
        Some(bytes) => bytes,
        None => vstd::pervasive::unreached(),
    };
    let ghost wanted = raster(
        img.spec_data(),
        img.spec_width(),
        img.spec_height(),
        new_width,
        new_height,
        mode,
    );
    let grid = match mode {
        ImageMode::Rgba => {
            let grid = cells_from_rgba(&resized, new_width, new_height);
            assert forall|y: int| 0 <= y < new_height implies #[trigger] grid_rows(grid@)[y]
                =~= wanted[y] by {}
            grid
        },
        ImageMode::GrayScale => {
            let gray = match to_luma_alpha(&resized, new_width, new_height) {
                Some(bytes) => bytes,
                None => vstd::pervasive::unreached(),
            };
            proof {
                let pixels = new_width * new_height;
                assert(4 * new_width * new_height == 4 * pixels && 2 * new_width * new_height == 2
                    * pixels) by (nonlinear_arith)
                    requires
                        pixels == new_width * new_height,
                ;
                assert(gray@.len() == resized@.len() / 4 * 2);
            }
            let grid = cells_from_luma_alpha(&gray, new_width, new_height);
            assert forall|y: int| 0 <= y < new_height implies #[trigger] grid_rows(grid@)[y]
                =~= wanted[y] by {
                assert forall|x: int| 0 <= x < new_width implies grid_rows(grid@)[y][x]
                    == wanted[y][x] by {
                    lemma_pixel_offset(x, y, new_width as int, new_height as int, 2);
                    let k = y * new_width + x;
                    assert(gray@[2 * k] == luma(
                        resized@[4 * k],
                        resized@[4 * k + 1],
                        resized@[4 * k + 2],
                    ));
                    assert(gray@[2 * k + 1] == resized@[4 * k + 3]);
                }
            }
            grid
        },
    };
    assert(grid_rows(grid@) =~= wanted);
    assert forall|y: int, x: int| 0 <= y < new_height && 0 <= x < new_width implies #[trigger] grid@[y]@[x]
        == wanted[y][x] by {
        assert(grid_rows(grid@)[y] == grid@[y]@);
    }
    grid
}

/// A space on a background of the colour, as a terminal takes it: the escape
/// sequence that sets the background to red, green and blue in decimal, the
/// space, and the escape sequence that resets.
pub open spec fn background_space(r: u8, g: u8, b: u8) -> Seq<char> {
    seq!['\u{1b}', '[', '4', '8', ';', '2', ';'] + decimal_text(r as nat) + seq![';']
        + decimal_text(g as nat) + seq![';'] + decimal_text(b as nat) + seq![
        'm',
        ' ',
        '\u{1b}',
        '[',
        '0',
        'm',
    ]
}

/// `ansi_rgb`'s `Background::bg` on a space with `rgb`'s `RGB8::new`, written
/// out by `Display`: `ESC [ 48 ; 2 ; r ; g ; b m`, the space, `ESC [ 0 m`,
/// the three numbers in decimal.
#[verifier::external_body]
fn colored_space(r: u8, g: u8, b: u8) -> (text: String)
    ensures
        text@ == background_space(r, g, b),
{
    format!("{}", " ".bg(RGB8::new(r, g, b)))
}

/// How a cell is written to a terminal: a blank cell as a plain space, a
/// coloured one as a space on its background.
pub open spec fn cell_text(cell: Cell) -> Seq<char> {
    match cell {
        Cell::Blank => seq![' '],
        Cell::Colored(r, g, b) => background_space(r, g, b),
    }
}

/// How the cells of a row are written, one after the other.
pub open spec fn cells_text(row: Seq<Cell>) -> Seq<char>
    decreases row.len(),
{
    if row.len() == 0 {
        Seq::empty()
    } else {
        cells_text(row.drop_last()) + cell_text(row.last())
    }
}

/// How a grid is written: each row as its cells and a line feed.
pub open spec fn grid_text(rows: Seq<Seq<Cell>>) -> Seq<char>
    decreases rows.len(),
{
    if rows.len() == 0 {
        Seq::empty()
    } else {
        grid_text(rows.drop_last()) + cells_text(rows.last()) + seq!['\n']
    }
}

/// The text that shows a grid on a terminal: row by row, each cell a space,
/// plain where the cell is blank and on the cell's colour otherwise, and a
/// line feed at the end of each row.
pub fn term_text(grid: &Vec<Vec<Cell>>) -> (text: String)
    ensures
        text@ == grid_text(grid_rows(grid@)),
{
    let mut text = String::new();
    let mut y: usize = 0;
    assert(grid_rows(grid@).take(0) =~= Seq::<Seq<Cell>>::empty());
    while y < grid.len()
        invariant
            y <= grid@.len(),
            text@ == grid_text(grid_rows(grid@).take(y as int)),
        decreases grid@.len() - y,
    {
        let row = &grid[y];
        let ghost before = text@;
        let mut x: usize = 0;
        assert(row@.take(0) =~= Seq::<Cell>::empty());
        while x < row.len()
            invariant
                x <= row@.len(),
                text@ == before + cells_text(row@.take(x as int)),
            decreases row@.len() - x,
        {
            proof {
                assert(row@.take(x + 1).drop_last() =~= row@.take(x as int));
                assert(row@.take(x + 1).last() == row@[x as int]);
            }
            match row[x] {
                Cell::Blank => {
                    push_char(&mut text, ' ');
                    assert(text@ =~= before + cells_text(row@.take(x + 1)));
                },
                Cell::Colored(r, g, b) => {
                    let colored = colored_space(r, g, b);
                    text.append(colored.as_str());
                    assert(text@ =~= before + cells_text(row@.take(x + 1)));
                },
            }
            x += 1;
        }
        push_char(&mut text, '\n');
        proof {
            assert(row@.take(row@.len() as int) =~= row@);
            let rows = grid_rows(grid@);
            assert(rows.take(y + 1).drop_last() =~= rows.take(y as int));
            assert(rows.take(y + 1).last() == row@);
            assert(text@ =~= grid_text(rows.take(y + 1)));
        }
        y += 1;
    }
    assert(grid_rows(grid@).take(grid@.len() as int) =~= grid_rows(grid@));
    text
}

/// The text that shows a picture on a terminal of `term_w` x `term_h` cells:
/// the picture fitted into the terminal, rendered at that size and written
/// row by row. Nothing comes back where the picture cannot be resampled to
/// that size.
pub fn print_term_image(img: &PixelBuffer, mode: ImageMode, term_w: u32, term_h: u32) -> (text:
    Option<String>)
    ensures
        fits_u32(img.spec_fit(term_w, term_h)),
        text is Some <==> raster_fits(
            img.spec_width(),
            img.spec_height(),
            img.spec_fit(term_w, term_h).0 as u32,
            img.spec_fit(term_w, term_h).1 as u32,
        ),
        text matches Some(written) ==> written@ == grid_text(
            raster(
                img.spec_data(),
                img.spec_width(),
                img.spec_height(),
                img.spec_fit(term_w, term_h).0 as u32,
                img.spec_fit(term_w, term_h).1 as u32,
                mode,
            ),
        ),
        text is Some ==> triangle_resized(
            img.spec_data(),
            img.spec_width(),
            img.spec_height(),
            img.spec_fit(term_w, term_h).0 as u32,
            img.spec_fit(term_w, term_h).1 as u32,
        ).len() == 4 * img.spec_fit(term_w, term_h).0 * img.spec_fit(term_w, term_h).1,
{
    let (w, h) = image_fit_size(img, term_w, term_h);
    if !can_rasterize(img, w, h) {
        return None;
    }
    let grid = rasterize(img, w, h, mode);
    Some(term_text(&grid))
}

} // verus!
