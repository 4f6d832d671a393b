//! Puts an example together: metadata, the image, and the dimensions that the
//! image decodes to.

use crate::metadata::{
    Dimensions, ImageExample, ImageExampleView, ImageMetadata, ImageMetadataView,
};
use immeta::formats::webp;
use immeta::GenericMetadata;
use vstd::prelude::*;
use vstd::slice::slice_to_vec;

verus! {

/// `immeta::Error`, carried through as a value that nothing here looks into.
#[verifier::external_type_specification]
#[verifier::external_body]
pub struct ExImageError(immeta::Error);

/// The dimensions in the metadata that `immeta::load_from_buf` reads off
/// `image`. `None` where it loads nothing, and where what it loads holds no
/// dimensions: a WebP image that is no VP8 key frame.
pub uninterp spec fn decoded_dimensions(image: Seq<u8>) -> Option<Dimensions>;

/// The mathematical value of the outcome of loading the metadata of an image.
pub open spec fn dimensions_view(loaded: Result<Option<Dimensions>, immeta::Error>) -> Option<
    Dimensions,
> {
    match loaded {
        Ok(found) => found,
        Err(_) => None,
    }
}

/// Calls `immeta::load_from_buf` on `image` and takes the dimensions out of
/// the metadata it loads, one arm for each kind of metadata: the field
/// `dimensions` of a PNG, GIF or JPEG image and of the key frame of a VP8
/// WebP image, and nothing of any other WebP image. The contract only names
/// the outcome.
#[verifier::external_body]
fn load_dimensions(image: &[u8]) -> (loaded: Result<Option<Dimensions>, immeta::Error>)
    ensures
        dimensions_view(loaded) == decoded_dimensions(image@),
{
    let found = match immeta::load_from_buf(image)? {
        GenericMetadata::Png(metadata) => Some(metadata.dimensions),
        GenericMetadata::Gif(metadata) => Some(metadata.dimensions),
        GenericMetadata::Jpeg(metadata) => Some(metadata.dimensions),
        GenericMetadata::Webp(webp::Metadata::VP8(metadata)) => match metadata.frame {
            webp::VP8Frame::Key { dimensions, .. } => Some(dimensions),
            webp::VP8Frame::Inter => None,
        },
        GenericMetadata::Webp(_) => None,
    };
    Ok(found.map(|size| Dimensions { width: size.width, height: size.height }))
}

/// The image could not be decoded.
#[derive(Clone, Copy, Debug, PartialEq, Eq, Structural)]
pub struct DecodeError;

/// The example that metadata, an image and its dimensions make.
pub open spec fn example_of(
    metadata: ImageMetadataView,
    image: Seq<u8>,
    dimensions: Dimensions,
) -> ImageExampleView {
    ImageExampleView {
        metadata,
        file: image,
        width: dimensions.width as nat,
        height: dimensions.height as nat,
    }
}

/// The dimensions of an image as a result: an image without any is not
/// decoded.
pub open spec fn resolved(found: Option<Dimensions>) -> Result<Dimensions, DecodeError> {
    match found {
        Some(dimensions) => Ok(dimensions),
        None => Err(DecodeError),
    }
}

/// Reads the dimensions off the outcome of loading the metadata of an image:
/// an image that did not load, or loaded without dimensions, is not decoded.
pub fn known_dimensions(loaded: Result<Option<Dimensions>, immeta::Error>) -> (result: Result<
    Dimensions,
    DecodeError,
>)
    ensures
        result == resolved(dimensions_view(loaded)),
{
    match loaded {
        Ok(Some(dimensions)) => Ok(dimensions),
        Ok(None) => Err(DecodeError),
        Err(_) => Err(DecodeError),
    }
}

/// Decodes the dimensions of an image.
pub fn decode_dimensions(image: &[u8]) -> (result: Result<Dimensions, DecodeError>)
    ensures
        result == resolved(decoded_dimensions(image@)),
{
    known_dimensions(load_dimensions(image))
}

/// Pairs metadata with an image whose dimensions are known.
pub fn assemble_with(metadata: ImageMetadata, image: &[u8], dimensions: Dimensions) -> (example:
    ImageExample)
    ensures
        example@ == example_of(metadata@, image@, dimensions),
{
    ImageExample::new(metadata, slice_to_vec(image), dimensions)
}

/// Pairs metadata with an image: decodes the dimensions of the image and
/// keeps its bytes as they are.
pub fn assemble(metadata: ImageMetadata, image: &[u8]) -> (result: Result<
    ImageExample,
    DecodeError,
>)
    ensures
        match result {
            Ok(example) => decoded_dimensions(image@) matches Some(dimensions) && example@
                == example_of(metadata@, image@, dimensions),
            Err(error) => decoded_dimensions(image@) == None::<Dimensions> && error == DecodeError,
        },
{
    match decode_dimensions(image) {
        Ok(dimensions) => Ok(assemble_with(metadata, image, dimensions)),
        Err(error) => Err(error),
    }
}

} // verus!
