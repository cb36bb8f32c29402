//! Texture bookkeeping: the grid of power-of-two texture sizes the renderer
//! prepares, and how the bytes of an RGBA image are laid out for upload.

use vstd::prelude::*;
use crate::config::PhysicalSize;
use crate::assets::{
    diffuse_load_result, loaded_image, loads_nonempty, DiffuseImage, DiffuseImageSize,
    ImageLoadError,
};

verus! {

/// Two to the power `e`.
pub open spec fn power_of_two(e: nat) -> nat
    decreases e,
{
    if e == 0 {
        1
    } else {
        2 * power_of_two((e - 1) as nat)
    }
}

/// Powers of two grow with the exponent.
pub proof fn lemma_power_of_two_monotone(a: nat, b: nat)
    requires
        a <= b,
    ensures
        1 <= power_of_two(a) <= power_of_two(b),
    decreases b,
{
    if b > 0 {
        if a == b {
            lemma_power_of_two_monotone((a - 1) as nat, (b - 1) as nat);
        } else {
            lemma_power_of_two_monotone(a, (b - 1) as nat);
        }
    }
}

/// The powers of two that bound a `u32`.
pub proof fn lemma_power_of_two_31_32()
    ensures
        power_of_two(31) == 0x8000_0000,
        power_of_two(32) == 0x1_0000_0000,
{
    reveal_with_fuel(power_of_two, 33);
}

/// Two to the power `e`, for an `e` whose power fits in a `u32`.
pub fn pow2(e: u32) -> (r: u32)
    requires
        e < 32,
    ensures
        r == power_of_two(e as nat),
{
    let mut r: u32 = 1;
    let mut i: u32 = 0;
    while i < e
        invariant
            i <= e < 32,
            r == power_of_two(i as nat),
        decreases e - i,
    {
        proof {
            lemma_power_of_two_monotone((i + 1) as nat, 31);
            lemma_power_of_two_31_32();
        }
        r = r * 2;
        i = i + 1;
    }
    r
}

/// The base-two logarithm of a positive number, rounded down: the `r` with
/// `2^r <= x < 2^(r+1)`.
pub fn log2(x: u32) -> (r: u32)
    requires
        x > 0,
    ensures
        power_of_two(r as nat) <= x < power_of_two(r as nat + 1),
        r < 32,
{
    let mut p: u32 = 1;
    let mut r: u32 = 0;
    while p <= x / 2
        invariant
            x > 0,
            p == power_of_two(r as nat),
            p <= x,
            r < 32,
        decreases x - p,
    {
        proof {
            lemma_power_of_two_monotone(r as nat + 1, 32);
            lemma_power_of_two_31_32();
        }
        p = p * 2;
        r = r + 1;
    }
    r
}

/// The size of the texture at column `w`, row `h` of the size grid.
pub open spec fn grid_size(w: int, h: int) -> PhysicalSize {
    PhysicalSize {
        width: power_of_two(w as nat) as u32,
        height: power_of_two(h as nat) as u32,
    }
}

/// The texture sizes prepared for a device whose largest 2D texture side is
/// `max_dimension`: for every `w` and `h` below `log2(max_dimension)`, the
/// size `2^w` by `2^h` at `[w][h]`. Zero-sized textures are not prepared.
pub fn texture_size_grid(max_dimension: u32) -> (r: Vec<Vec<PhysicalSize>>)
    requires
        max_dimension > 0,
    ensures
        power_of_two(r@.len()) <= max_dimension < power_of_two(r@.len() + 1),
        forall|w: int|
            0 <= w < r@.len() ==> (#[trigger] r@[w])@.len() == r@.len(),
        forall|w: int, h: int|
            0 <= w < r@.len() && 0 <= h < r@.len() ==> (#[trigger] r@[w]@[h]) == grid_size(w, h),
{
    let qty: u32 = log2(max_dimension);
    let mut grid: Vec<Vec<PhysicalSize>> = Vec::new();
    let mut w: u32 = 0;
    while w < qty
        invariant
            qty < 32,
            w <= qty,
            grid@.len() == w,
            forall|i: int| 0 <= i < w ==> (#[trigger] grid@[i])@.len() == qty,
            forall|i: int, j: int|
                0 <= i < w && 0 <= j < qty ==> (#[trigger] grid@[i]@[j]) == grid_size(i, j),
        decreases qty - w,
    {
        let width: u32 = pow2(w);
        let mut column: Vec<PhysicalSize> = Vec::new();
        let mut h: u32 = 0;
        while h < qty
            invariant
                qty < 32,
                w < qty,
                h <= qty,
                width == power_of_two(w as nat),
                column@.len() == h,
                forall|j: int| 0 <= j < h ==> (#[trigger] column@[j]) == grid_size(w as int, j),
            decreases qty - h,
        {
            let height: u32 = pow2(h);
            column.push(PhysicalSize { width, height });
            h = h + 1;
        }
        grid.push(column);
        w = w + 1;
    }
    grid
}

/// Every size of the grid fits the device: both sides are at most half the
/// largest side it allows, and a larger grid index gives a larger side.
pub proof fn lemma_grid_sizes_fit(max_dimension: u32, qty: nat, w: nat, h: nat)
    requires
        power_of_two(qty) <= max_dimension < power_of_two(qty + 1),
        w < qty,
        h < qty,
    ensures
        2 * grid_size(w as int, h as int).width <= max_dimension,
        2 * grid_size(w as int, h as int).height <= max_dimension,
        grid_size(w as int, h as int).width >= 1,
{
    lemma_power_of_two_monotone(w + 1, qty);
    lemma_power_of_two_monotone(h + 1, qty);
    lemma_power_of_two_monotone(0, w);
}

/// The cell of a size grid that holds the given size, if any: the first
/// one in column-major order.
pub fn find_grid_cell(grid: &Vec<Vec<PhysicalSize>>, size: PhysicalSize) -> (r: Option<(usize, usize)>)
    ensures
        match r {
            Some((w, h)) => w < grid@.len() && h < grid@[w as int]@.len() && grid@[w as int]@[h as int]
                == size && (forall|i: int, j: int|
                0 <= i < w && 0 <= j < grid@[i]@.len() ==> #[trigger] grid@[i]@[j] != size) && (
            forall|j: int| 0 <= j < h ==> #[trigger] grid@[w as int]@[j] != size),
            None => forall|w: int, h: int|
                0 <= w < grid@.len() && 0 <= h < grid@[w]@.len() ==> #[trigger] grid@[w]@[h]
                    != size,
        },
{
    let mut w: usize = 0;
    while w < grid.len()
        invariant
            w <= grid@.len(),
            forall|i: int, j: int|
                0 <= i < w && 0 <= j < grid@[i]@.len() ==> #[trigger] grid@[i]@[j] != size,
        decreases grid@.len() - w,
    {
        let column = &grid[w];
        let mut h: usize = 0;
        while h < column.len()
            invariant
                w < grid@.len(),
                column@ == grid@[w as int]@,
                h <= column@.len(),
                forall|i: int, j: int|
                    0 <= i < w && 0 <= j < grid@[i]@.len() ==> #[trigger] grid@[i]@[j] != size,
                forall|j: int| 0 <= j < h ==> #[trigger] grid@[w as int]@[j] != size,
            decreases column@.len() - h,
        {
            if column[h] == size {
                return Some((w, h));
            }
            h = h + 1;
        }
        w = w + 1;
    }
    None
}

/// The extent of a 2D texture: its width, height and number of layers.
#[derive(Clone, Copy, Debug, PartialEq, Eq, Structural)]
pub struct Extent3d {
    pub width: u32,
    pub height: u32,
    pub depth_or_array_layers: u32,
}

/// How the bytes of an image are laid out in memory for a texture upload.
/// A `None` row length or row count means it is left unspecified.
#[derive(Clone, Copy, Debug, PartialEq, Eq, Structural)]
pub struct ImageDataLayout {
    pub offset: u64,
    pub bytes_per_row: Option<u32>,
    pub rows_per_image: Option<u32>,
}

/// `Some(v)` for a nonzero `v`, `None` for zero.
pub open spec fn nonzero(v: int) -> Option<u32> {
    if v == 0 {
        None
    } else {
        Some(v as u32)
    }
}

/// A nonzero value is given back as it is; zero is given as `None`.
pub proof fn lemma_nonzero_keeps_value(v: int)
    requires
        0 <= v <= u32::MAX,
    ensures
        v != 0 ==> nonzero(v) == Some(v as u32) && nonzero(v)->0 == v,
        v == 0 ==> nonzero(v) is None,
{
}

/// The extent of a single-layer texture of the given size.
pub fn image_extent(width: u32, height: u32) -> (r: Extent3d)
    ensures
        r == (Extent3d { width, height, depth_or_array_layers: 1 }),
{
    Extent3d { width, height, depth_or_array_layers: 1 }
}

/// The layout of an RGBA image with 8 bits per channel: it starts at byte
/// zero, each row takes four bytes per pixel, and there are `height` rows.
pub fn rgba8_image_data_layout(width: u32, height: u32) -> (r: ImageDataLayout)
    requires
        4 * width <= u32::MAX,
    ensures
        r == (ImageDataLayout {
            offset: 0,
            bytes_per_row: nonzero(4 * width),
            rows_per_image: nonzero(height as int),
        }),
        r.offset == 0,
        width > 0 ==> r.bytes_per_row == Some((4 * width) as u32),
        width == 0 ==> r.bytes_per_row is None,
        height > 0 ==> r.rows_per_image == Some(height),
        height == 0 ==> r.rows_per_image is None,
        width > 0 && height > 0 ==> r.bytes_per_row->0 * r.rows_per_image->0 == 4 * width
            * height,
{
    proof {
        lemma_nonzero_keeps_value(4 * width);
        lemma_nonzero_keeps_value(height as int);
        assert((4 * width) * height == 4 * width * height) by (nonlinear_arith);
    }
    let row: u32 = 4 * width;
    ImageDataLayout {
        offset: 0,
        bytes_per_row: if row == 0 {
            None
        } else {
            Some(row)
        },
        rows_per_image: if height == 0 {
            None
        } else {
            Some(height)
        },
    }
}

/// Why a texture could not be loaded.
#[derive(Debug)]
pub enum TextureError {
    /// Its image could not be loaded.
    CannotLoad { source: ImageLoadError },
}

/// A texture made of a diffuse image, with the path it was loaded from.
pub struct DiffuseTexture {
    path: String,
    image: DiffuseImage,
}

/// What a [`DiffuseTexture`] holds: its path and its image.
pub struct DiffuseTextureModel {
    pub path: Seq<char>,
    pub image: crate::assets::DecodedImage,
}

/// What loading a texture yields: the texture of the path and of the
/// image that loading the bytes yields, or the image's load error.
pub open spec fn texture_load_result(
    path: Seq<char>,
    bytes: Seq<u8>,
    guess: bool,
    r: Result<DiffuseTexture, TextureError>,
) -> bool {
    match r {
        Ok(t) => loads_nonempty(path, bytes, guess) && t@ == DiffuseTextureModel {
            path,
            image: loaded_image(path, bytes, guess),
        },
        Err(TextureError::CannotLoad { source }) => diffuse_load_result(
            path,
            bytes,
            guess,
            Err(source),
        ),
    }
}

impl View for DiffuseTexture {
    type V = DiffuseTextureModel;

    closed spec fn view(&self) -> DiffuseTextureModel {
        DiffuseTextureModel { path: self.path@, image: self.image@ }
    }
}

impl DiffuseTexture {
    fn load_handler(filepath: &str, bytes: &[u8], guess_the_format: bool) -> (r: Result<
        Self,
        TextureError,
    >)
        ensures
            texture_load_result(filepath@, bytes@, guess_the_format, r),
    {
        let loaded = if guess_the_format {
            DiffuseImage::load_with_guessed_format(filepath, bytes)
        } else {
            DiffuseImage::load(filepath, bytes)
        };
        match loaded {
            Ok(image) => {
                Ok(DiffuseTexture { path: filepath.to_owned(), image })
            },
            Err(e) => Err(TextureError::CannotLoad { source: e }),
        }
    }

    /// Load a texture from an image file's bytes; the image format is
    /// taken from the file's path.
    pub fn load(filepath: &str, bytes: &[u8]) -> (r: Result<Self, TextureError>)
        ensures
            texture_load_result(filepath@, bytes@, false, r),
    {
        DiffuseTexture::load_handler(filepath, bytes, false)
    }

    /// Load a texture from an image file's bytes; the image format is
    /// guessed from the content first, and taken from the path if that fails.
    pub fn load_with_guessed_format(filepath: &str, bytes: &[u8]) -> (r: Result<
        Self,
        TextureError,
    >)
        ensures
            texture_load_result(filepath@, bytes@, true, r),
    {
        DiffuseTexture::load_handler(filepath, bytes, true)
    }

    /// The path the texture was loaded from.
    pub fn path(&self) -> (r: &String)
        ensures
            r@ == self@.path,
    {
        &self.path
    }

    /// The texture's image.
    pub fn image(&self) -> (r: &DiffuseImage)
        ensures
            r@ == self@.image,
    {
        &self.image
    }

    /// The size of the texture's image; neither side is zero.
    pub fn size(&self) -> (r: DiffuseImageSize)
        ensures
            r@ == (self@.image.width, self@.image.height),
    {
        self.image.size()
    }

    /// The texture's pixels as 8-bit RGBA bytes, when its image is stored
    /// that way.
    pub fn as_rgba8_bytes(&self) -> (r: Option<&[u8]>)
        ensures
            match r {
                Some(b) => self@.image.rgba8 == Some(b@) && b@.len() == 4 * self@.image.width
                    * self@.image.height,
                None => self@.image.rgba8 is None,
            },
    {
        self.image.as_rgba8_bytes()
    }
}

} // verus!
