//! The generic asset interfaces: what an image, an image size, a texture
//! and a model offer, whatever their implementation.

use vstd::prelude::*;
use crate::assets::{diffuse_load_result, DiffuseImage, DiffuseImageSize, ImageLoadError};
use crate::texture::{texture_load_result, DiffuseTexture, TextureError};

verus! {

/// Describes the size of an image, built from a nonzero width and height.
///
/// Known implementations: [`DiffuseImageSize`].
pub trait GenericSize: Sized {
    /// A size of the given width and height, neither of which may be zero.
    fn new(width: u32, height: u32) -> Self
        requires
            width > 0,
            height > 0,
    ;

    /// Returns the image width.
    fn width(&self) -> u32;

    /// Returns the image height.
    fn height(&self) -> u32;

    /// Returns the image width and height (in that order) as tuple.
    fn as_tuple(&self) -> (u32, u32);
}

/// Describes an image that can be loaded from a file's bytes.
///
/// Known implementations: [`DiffuseImage`].
pub trait GenericImage {
    /// The type loading yields.
    type Img;
    /// The type describing the image size.
    type ImgSz;

    /// Decode an image file's bytes; the format is taken from its path.
    fn load(filepath: &str, bytes: &[u8]) -> Result<Self::Img, ImageLoadError>;

    /// Decode an image file's bytes; the format is guessed from the content.
    fn load_with_guessed_format(filepath: &str, bytes: &[u8]) -> Result<Self::Img, ImageLoadError>;

    /// Returns the image size.
    fn size(&self) -> Self::ImgSz;

    /// Get the bytes from the image as 8bit RGBA.
    fn as_rgba8_bytes(&self) -> Option<&[u8]>;
}

impl GenericSize for DiffuseImageSize {
    fn new(width: u32, height: u32) -> (r: Self)
        ensures
            r@ == (width, height),
    {
        <DiffuseImageSize as crate::assets::ImageSize>::new_unchecked(width, height)
    }

    fn width(&self) -> (r: u32)
        ensures
            r == self@.0,
            r > 0,
    {
        <DiffuseImageSize as crate::assets::ImageSize>::width(self)
    }

    fn height(&self) -> (r: u32)
        ensures
            r == self@.1,
            r > 0,
    {
        <DiffuseImageSize as crate::assets::ImageSize>::height(self)
    }

    fn as_tuple(&self) -> (r: (u32, u32))
        ensures
            r == self@,
            r.0 > 0 && r.1 > 0,
    {
        <DiffuseImageSize as crate::assets::ImageSize>::as_tuple(self)
    }
}

impl GenericImage for DiffuseImage {
    type Img = DiffuseImage;
    type ImgSz = DiffuseImageSize;

    /// Decode an image file's bytes; the format is taken from its path.
    fn load(filepath: &str, bytes: &[u8]) -> (r: Result<Self::Img, ImageLoadError>)
        ensures
            diffuse_load_result(filepath@, bytes@, false, r),
    {
        DiffuseImage::load(filepath, bytes)
    }

    /// Decode an image file's bytes; the format is guessed from the
    /// content first, and taken from its path if the guess fails.
    fn load_with_guessed_format(filepath: &str, bytes: &[u8]) -> (r: Result<
        Self::Img,
        ImageLoadError,
    >)
        ensures
            diffuse_load_result(filepath@, bytes@, true, r),
    {
        DiffuseImage::load_with_guessed_format(filepath, bytes)
    }

    fn size(&self) -> (r: DiffuseImageSize)
        ensures
            r@ == (self@.width, self@.height),
    {
        DiffuseImage::size(self)
    }

    fn as_rgba8_bytes(&self) -> (r: Option<&[u8]>)
        ensures
            match r {
                Some(b) => self@.rgba8 == Some(b@) && b@.len() == 4 * self@.width * self@.height,
                None => self@.rgba8 is None,
            },
    {
        DiffuseImage::as_rgba8_bytes(self)
    }
}

/// Describes a texture that can be loaded from an image file's bytes.
///
/// Known implementations: [`DiffuseTexture`].
pub trait GenericTexture {
    /// The type loading yields.
    type Output;
    /// The type of the texture's image.
    type Img;
    /// The type describing the image size.
    type ImgSz;

    /// Load a texture; the image format is taken from the file's path.
    fn load(filepath: &str, bytes: &[u8]) -> Result<Self::Output, TextureError>;

    /// Load a texture; the image format is guessed from the content.
    fn load_with_guessed_format(filepath: &str, bytes: &[u8]) -> Result<Self::Output, TextureError>;

    /// Get the bytes of the texture's image as 8bit RGBA.
    fn as_rgba8_bytes(&self) -> Option<&[u8]>;

    /// Returns the size of the texture's image.
    fn size(&self) -> Self::ImgSz;
}

impl GenericTexture for DiffuseTexture {
    type Output = DiffuseTexture;
    type Img = DiffuseImage;
    type ImgSz = DiffuseImageSize;

    fn load(filepath: &str, bytes: &[u8]) -> (r: Result<Self::Output, TextureError>)
        ensures
            texture_load_result(filepath@, bytes@, false, r),
    {
        DiffuseTexture::load(filepath, bytes)
    }

    fn load_with_guessed_format(filepath: &str, bytes: &[u8]) -> (r: Result<
        Self::Output,
        TextureError,
    >)
        ensures
            texture_load_result(filepath@, bytes@, true, r),
    {
        DiffuseTexture::load_with_guessed_format(filepath, bytes)
    }

    fn as_rgba8_bytes(&self) -> (r: Option<&[u8]>)
        ensures
            match r {
                Some(b) => self@.image.rgba8 == Some(b@) && b@.len() == 4 * self@.image.width
                    * self@.image.height,
                None => self@.image.rgba8 is None,
            },
    {
        DiffuseTexture::as_rgba8_bytes(self)
    }

    fn size(&self) -> (r: DiffuseImageSize)
        ensures
            r@ == (self@.image.width, self@.image.height),
    {
        DiffuseTexture::size(self)
    }
}

/// Describes a model (meshes and their materials) that can be loaded from
/// a file.
pub trait GenericModel {
    /// The type loading yields.
    type Mdl;
    /// Why loading can fail.
    type Error;

    /// Load the model described by the file at `path`.
    fn load(path: &str) -> Result<Self::Mdl, Self::Error>;
}

} // verus!
