//! Decoded tile-layer images.
//!
//! A layer image is any PNG; it is decoded to 8-bit RGBA, one pixel per tile.
//! A pixel with alpha zero means that there is no tile.

pub mod cache;

use vstd::prelude::*;
use vstd::string::*;

verus! {

#[derive(Debug, Clone, PartialEq, Eq)]
pub enum AssetLoadError {
    /// No asset is stored under this path.
    NotFound(String),
    /// The path is not valid unicode.
    InvalidPath,
    /// The asset is not an image that can be decoded.
    DecodeImageError,
}

impl AssetLoadError {
    /// The error in words.
    pub open spec fn spec_message(self) -> Seq<char> {
        match self {
            AssetLoadError::NotFound(path) => "The given asset was not found: "@ + path@,
            AssetLoadError::InvalidPath => "The given path was invalid unicode"@,
            AssetLoadError::DecodeImageError => "The given image asset could not be decoded"@,
        }
    }

    /// A copy of this error.
    pub fn duplicate(&self) -> (copy: AssetLoadError)
        ensures
            copy == *self,
    {
        match self {
            AssetLoadError::NotFound(path) => AssetLoadError::NotFound(path.clone()),
            AssetLoadError::InvalidPath => AssetLoadError::InvalidPath,
            AssetLoadError::DecodeImageError => AssetLoadError::DecodeImageError,
        }
    }

    /// The error in words.
    pub fn message(&self) -> (text: String)
        ensures
            text@ == self.spec_message(),
    {
        match self {
            AssetLoadError::NotFound(path) => {
                let mut text = "The given asset was not found: ".to_owned();
                text.append(path.as_str());
                text
            },
            AssetLoadError::InvalidPath => "The given path was invalid unicode".to_owned(),
            AssetLoadError::DecodeImageError => "The given image asset could not be decoded".to_owned(),
        }
    }
}

/// One pixel: red, green, blue and alpha.
#[derive(Clone, Copy, Debug, PartialEq, Eq, Structural)]
pub struct Rgba {
    pub r: u8,
    pub g: u8,
    pub b: u8,
    pub a: u8,
}

/// Most tiles that a layer can have along one side.
pub const MAX_SIDE: u32 = 0x8000;

/// The pixel that starts at byte `4 * index` of a raw RGBA buffer.
pub open spec fn raw_pixel(bytes: Seq<u8>, index: int) -> Rgba {
    Rgba { r: bytes[4 * index], g: bytes[4 * index + 1], b: bytes[4 * index + 2], a: bytes[4 * index + 3] }
}

/// `bytes` holds exactly the pixels of an image of `width` by `height`, and
/// neither side is longer than [`MAX_SIDE`].
pub open spec fn fits_layer(width: u32, height: u32, bytes: Seq<u8>) -> bool {
    width <= MAX_SIDE && height <= MAX_SIDE && bytes.len() == 4 * ((width as int) * (height as int))
}

/// The mathematical value of a layer image: its measures and its raw
/// buffer, four bytes per pixel, row after row from the top.
pub struct Grid {
    pub width: nat,
    pub height: nat,
    pub bytes: Seq<u8>,
}

impl Grid {
    /// The pixel in column `x` of row `row`, rows counted from the top.
    pub open spec fn texel(self, x: int, row: int) -> Rgba {
        raw_pixel(self.bytes, row * self.width + x)
    }

    /// The pixel of the tile at `(x, y)`: tile rows are counted from the
    /// bottom of the image, so that `y` grows upward as in the world.
    pub open spec fn tile(self, x: int, y: int) -> Rgba {
        self.texel(x, self.height - 1 - y)
    }
}

/// The grid that a decoder's outcome stands for.
pub open spec fn grid_of(raw: (u32, u32, Seq<u8>)) -> Grid {
    Grid { width: raw.0 as nat, height: raw.1 as nat, bytes: raw.2 }
}

/// A decoded layer image: rows of RGBA pixels, the top row first.
#[derive(Debug)]
pub struct TileImage {
    width: u32,
    height: u32,
    pixels: Vec<u8>,
}

impl View for TileImage {
    type V = Grid;

    closed spec fn view(&self) -> Grid {
        Grid { width: self.width as nat, height: self.height as nat, bytes: self.pixels@ }
    }
}

impl TileImage {
    #[verifier::type_invariant]
    spec fn well_formed(self) -> bool {
        fits_layer(self.width, self.height, self.pixels@)
    }

    /// The image of `width` by `height` over the raw buffer `pixels`, where
    /// the buffer has exactly that many pixels and no side is too long.
    pub fn from_raw(width: u32, height: u32, pixels: Vec<u8>) -> (image: Option<TileImage>)
        ensures
            image.is_some() == fits_layer(width, height, pixels@),
            image matches Some(img) ==> img@ == grid_of((width, height, pixels@)),
    {
        if width <= MAX_SIDE && height <= MAX_SIDE {
            assert(0 <= (width as int) * (height as int) <= 0x4000_0000) by (nonlinear_arith)
                requires
                    0 <= width <= 0x8000,
                    0 <= height <= 0x8000,
            ;
            let area: u64 = (width as u64) * (height as u64);
            if pixels.len() as u64 == 4 * area {
                return Some(TileImage { width, height, pixels });
            }
        }
        None
    }

    /// Pixels per row.
    pub fn width(&self) -> (w: u32)
        ensures
            w == self@.width,
            w <= MAX_SIDE,
    {
        proof {
            use_type_invariant(self);
        }
        self.width
    }

    /// Number of rows.
    pub fn height(&self) -> (h: u32)
        ensures
            h == self@.height,
            h <= MAX_SIDE,
    {
        proof {
            use_type_invariant(self);
        }
        self.height
    }

    /// The pixel of the tile at `(x, y)`, rows counted from the bottom.
    pub fn get_tile(&self, x: u32, y: u32) -> (pixel: Rgba)
        requires
            x < self@.width,
            y < self@.height,
        ensures
            pixel == self@.tile(x as int, y as int),
    {
        proof {
            use_type_invariant(self);
        }
        let row: usize = (self.height - 1 - y) as usize;
        let w: usize = self.width as usize;
        assert(row * w + x < (self.width as int) * (self.height as int) && 0 <= row * w) by (nonlinear_arith)
            requires
                0 <= row < self.height,
                w == self.width,
                0 <= x < w,
        ;
        let len: usize = self.pixels.len();
        assert(4 * (row * w + x) + 3 < len);
        let at: usize = 4 * (row * w + x as usize);
        Rgba { r: self.pixels[at], g: self.pixels[at + 1], b: self.pixels[at + 2], a: self.pixels[at + 3] }
    }
}

/// What the `image` crate decodes from `data` read as a PNG file and
/// converted to 8-bit RGBA: width, height and the raw buffer, four bytes per
/// pixel, rows from the top. `None` where the decoder rejects `data`.
pub uninterp spec fn decoded_png(data: Seq<u8>) -> Option<(u32, u32, Seq<u8>)>;

/// Calls `image::io::Reader::decode` on `data` with the format set to PNG,
/// then `DynamicImage::to_rgba8`, and hands out the buffer's `width()`,
/// `height()` and `into_raw()`. The contract claims only that the outcome is
/// the one that [`decoded_png`] names: the same bytes always decode alike.
#[verifier::external_body]
fn decode_png(data: &[u8]) -> (decoded: Option<(u32, u32, Vec<u8>)>)
    ensures
        decoded_png(data@) == match decoded {
            Some(raw) => Some((raw.0, raw.1, raw.2@)),
            None => None,
        },
{
    let mut reader = image::io::Reader::new(std::io::Cursor::new(data));
    reader.set_format(image::ImageFormat::Png);
    match reader.decode() {
        Ok(decoded) => {
            let buffer = decoded.to_rgba8();
            Some((buffer.width(), buffer.height(), buffer.into_raw()))
        },
        Err(_) => None,
    }
}

/// The layer image that a decoder's outcome stands for.
///
/// Succeeds exactly when something was decoded, its buffer has four bytes
/// for each pixel of its width and height, and no side is longer than
/// [`MAX_SIDE`]; the image then has those measures and those bytes.
pub fn image_from_decoded(decoded: Option<(u32, u32, Vec<u8>)>) -> (loaded: Result<TileImage, AssetLoadError>)
    ensures
        loaded.is_ok() == (decoded matches Some(raw) && fits_layer(raw.0, raw.1, raw.2@)),
        loaded matches Ok(image) ==> decoded matches Some(raw) && image@ == grid_of((raw.0, raw.1, raw.2@)),
        loaded matches Err(e) ==> e is DecodeImageError,
{
    match decoded {
        Some((width, height, pixels)) => match TileImage::from_raw(width, height, pixels) {
            Some(image) => Ok(image),
            None => Err(AssetLoadError::DecodeImageError),
        },
        None => Err(AssetLoadError::DecodeImageError),
    }
}

/// Decodes the PNG file `data` into a layer image.
///
/// Succeeds exactly when the decoder accepts `data` and what it decodes
/// fits a layer; the image then holds what was decoded.
pub fn load_image(data: &[u8]) -> (loaded: Result<TileImage, AssetLoadError>)
    ensures
        loaded.is_ok() == (decoded_png(data@) matches Some(raw) && fits_layer(raw.0, raw.1, raw.2)),
        loaded matches Ok(image) ==> decoded_png(data@) matches Some(raw) && image@ == grid_of(raw),
        loaded matches Err(e) ==> e is DecodeImageError,
{
    image_from_decoded(decode_png(data))
}

} // verus!
