//! Loading six encoded images as the faces of one cubemap.

use crate::format::{ChannelType, SurfaceType};
use vstd::prelude::*;

verus! {

/// A decoded image: 8-bit RGBA pixels, row by row from the top.
#[derive(Clone, Debug, PartialEq, Eq)]
pub struct ImageData {
    pub width: u32,
    pub height: u32,
    pub rgba: Vec<u8>,
}

impl ImageData {
    /// The pixel buffer holds at least four bytes for every pixel of the
    /// image.
    pub open spec fn covers(&self) -> bool {
        4 * self.width * self.height <= self.rgba@.len()
    }
}

/// The shape of a texture.
#[derive(Clone, Copy, Debug, PartialEq, Eq, Structural)]
pub enum TextureKind {
    /// A single flat image.
    D2 { width: u16, height: u16 },
    /// Six square images of edge `size`, one per face of a cube.
    Cube { size: u16 },
}

/// How the GPU is to read the pixels of a texture.
#[derive(Clone, Copy, Debug, PartialEq, Eq, Structural)]
pub struct TextureMetadata {
    pub format: SurfaceType,
    pub channel: ChannelType,
    /// The shape, or `None` to take a flat image of the pixels' own size.
    pub kind: Option<TextureKind>,
}

impl TextureMetadata {
    /// 8-bit RGBA in the sRGB color space, shape left open.
    pub open spec fn spec_srgb() -> TextureMetadata {
        TextureMetadata {
            format: SurfaceType::R8G8B8A8,
            channel: ChannelType::Srgb,
            kind: None,
        }
    }

    /// 8-bit RGBA in the sRGB color space, shape left open.
    #[verifier::when_used_as_spec(spec_srgb)]
    pub fn srgb() -> (r: TextureMetadata)
        ensures
            r == TextureMetadata::spec_srgb(),
    {
        TextureMetadata {
            format: SurfaceType::R8G8B8A8,
            channel: ChannelType::Srgb,
            kind: None,
        }
    }

    /// The same metadata with shape `kind`.
    pub open spec fn spec_with_kind(self, kind: TextureKind) -> TextureMetadata {
        TextureMetadata { format: self.format, channel: self.channel, kind: Some(kind) }
    }

    /// The same metadata with shape `kind`.
    #[verifier::when_used_as_spec(spec_with_kind)]
    pub fn with_kind(self, kind: TextureKind) -> (r: TextureMetadata)
        ensures
            r == self.spec_with_kind(kind),
    {
        TextureMetadata { format: self.format, channel: self.channel, kind: Some(kind) }
    }
}

/// The metadata of a cubemap of edge `size`: sRGB pixels, cube shape.
pub open spec fn cube_metadata(size: u16) -> TextureMetadata {
    TextureMetadata::spec_srgb().spec_with_kind(TextureKind::Cube { size })
}

/// Everything the asset store needs to make one cubemap texture: the six
/// faces, in the order +X, -X, +Y, -Y, +Z, -Z, and how to read them.
#[derive(Clone, Debug, PartialEq, Eq)]
pub struct TextureData {
    pub faces: [ImageData; 6],
    pub metadata: TextureMetadata,
}

/// Why an image could not be loaded.
#[derive(Clone, Copy, Debug, PartialEq, Eq, Structural)]
pub enum LoadError {
    /// The bytes are not a well-formed image of any known format.
    Decoding,
    /// The image could not be written out.
    Encoding,
    /// A size or another argument did not fit the image.
    Parameter,
    /// Decoding would have taken more memory than allowed.
    Limits,
    /// The format is known but not supported.
    Unsupported,
    /// The bytes could not be read.
    Io,
}

/// Which face of a cubemap could not be loaded, and why.
#[derive(Clone, Copy, Debug, PartialEq, Eq, Structural)]
pub struct CubemapError {
    /// Index of the face, 0 to 5.
    pub face: usize,
    pub error: LoadError,
}

#[verifier::external_type_specification]
#[verifier::external_body]
pub struct ExImageError(image::ImageError);

/// Decodes an image with `image::load_from_memory` and renders it as 8-bit
/// RGBA with `DynamicImage::into_rgba8`.
///
/// Which bytes decode, and to what, is the decoder's business and is not
/// stated. What is stated holds of every image buffer the decoder hands out:
/// it has at least four bytes for each pixel of its width and height.
#[verifier::external_body]
fn decode_rgba8(data: &[u8]) -> (r: Result<ImageData, image::ImageError>)
    ensures
        r matches Ok(image) ==> image.covers(),
{
    let rgba = image::load_from_memory(data)?.into_rgba8();
    Ok(ImageData { width: rgba.width(), height: rgba.height(), rgba: rgba.into_raw() })
}

/// Tells the variants of `image::ImageError` apart.
#[verifier::external_body]
fn error_kind(error: &image::ImageError) -> LoadError {
    match error {
        image::ImageError::Decoding(_) => LoadError::Decoding,
        image::ImageError::Encoding(_) => LoadError::Encoding,
        image::ImageError::Parameter(_) => LoadError::Parameter,
        image::ImageError::Limits(_) => LoadError::Limits,
        image::ImageError::Unsupported(_) => LoadError::Unsupported,
        image::ImageError::IoError(_) => LoadError::Io,
    }
}

/// Decodes one encoded image to 8-bit RGBA.
///
/// The format is guessed from the bytes. Whether the bytes decode is up to
/// the decoder; an image that comes back has a pixel buffer that covers it.
pub fn load_texture(data: &[u8]) -> (r: Result<ImageData, LoadError>)
    ensures
        r matches Ok(image) ==> image.covers(),
{
    match decode_rgba8(data) {
        Ok(image) => Ok(image),
        Err(e) => Err(error_kind(&e)),
    }
}

/// The first face that failed to load, with its error, if any did.
pub open spec fn first_failure(faces: Seq<Result<ImageData, LoadError>>) -> Option<CubemapError> {
    if exists|i: int| 0 <= i < faces.len() && faces[i] is Err {
        let first = choose|i: int|
            0 <= i < faces.len() && faces[i] is Err && forall|j: int|
                0 <= j < i ==> faces[j] is Ok;
        Some(CubemapError { face: first as usize, error: faces[first]->Err_0 })
    } else {
        None
    }
}

/// Puts six loaded faces together as one cubemap of edge `size`.
///
/// The faces come in the order +X, -X, +Y, -Y, +Z, -Z. There is no partial
/// cubemap: if any face failed to load, the first failure in that order is
/// the result, and no data comes back.
pub fn cubemap_from_faces(
    pos_x: Result<ImageData, LoadError>,
    neg_x: Result<ImageData, LoadError>,
    pos_y: Result<ImageData, LoadError>,
    neg_y: Result<ImageData, LoadError>,
    pos_z: Result<ImageData, LoadError>,
    neg_z: Result<ImageData, LoadError>,
    size: u16,
) -> (r: Result<TextureData, CubemapError>)
    ensures
        match first_failure(seq![pos_x, neg_x, pos_y, neg_y, pos_z, neg_z]) {
            Some(failure) => r == Err::<TextureData, CubemapError>(failure),
            None => {
                &&& r matches Ok(data)
                &&& data.metadata == cube_metadata(size)
                &&& data.faces@ == seq![
                    pos_x->Ok_0,
                    neg_x->Ok_0,
                    pos_y->Ok_0,
                    neg_y->Ok_0,
                    pos_z->Ok_0,
                    neg_z->Ok_0,
                ]
            },
        },
{
    let ghost faces = seq![pos_x, neg_x, pos_y, neg_y, pos_z, neg_z];
    let f0 = match pos_x {
        Ok(image) => image,
        Err(error) => {
            proof {
                lemma_first_failure(faces, 0);
            }
            return Err(CubemapError { face: 0, error });
        },
    };
    let f1 = match neg_x {
        Ok(image) => image,
        Err(error) => {
            proof {
                lemma_first_failure(faces, 1);
            }
            return Err(CubemapError { face: 1, error });
        },
    };
    let f2 = match pos_y {
        Ok(image) => image,
        Err(error) => {
            proof {
                lemma_first_failure(faces, 2);
            }
            return Err(CubemapError { face: 2, error });
        },
    };
    let f3 = match neg_y {
        Ok(image) => image,
        Err(error) => {
            proof {
                lemma_first_failure(faces, 3);
            }
            return Err(CubemapError { face: 3, error });
        },
    };
    let f4 = match pos_z {
        Ok(image) => image,
        Err(error) => {
            proof {
                lemma_first_failure(faces, 4);
            }
            return Err(CubemapError { face: 4, error });
        },
    };
    let f5 = match neg_z {
        Ok(image) => image,
        Err(error) => {
            proof {
                lemma_first_failure(faces, 5);
            }
            return Err(CubemapError { face: 5, error });
        },
    };
    let metadata = TextureMetadata::srgb().with_kind(TextureKind::Cube { size });
    let data = TextureData { faces: [f0, f1, f2, f3, f4, f5], metadata };
    assert(data.faces@ =~= seq![f0, f1, f2, f3, f4, f5]);
    Ok(data)
}

/// If face `k` failed and every face before it loaded, `k` is the first
/// failure.
proof fn lemma_first_failure(faces: Seq<Result<ImageData, LoadError>>, k: int)
    requires
        0 <= k < faces.len(),
        k <= usize::MAX,
        faces[k] is Err,
        forall|j: int| 0 <= j < k ==> faces[j] is Ok,
    ensures
        first_failure(faces) == Some(CubemapError { face: k as usize, error: faces[k]->Err_0 }),
{
    let first = choose|i: int|
        0 <= i < faces.len() && faces[i] is Err && forall|j: int| 0 <= j < i ==> faces[j] is Ok;
    assert(first == k) by {
        if first < k {
            assert(faces[first] is Ok);
        }
        if k < first {
            assert(faces[k] is Ok);
        }
    }
}

/// Loads six encoded images as the faces of a cubemap of edge `size`.
///
/// The images come in the order +X, -X, +Y, -Y, +Z, -Z and are decoded in
/// that order. Whether an image decodes is up to the decoder. If all six do,
/// the result holds them with sRGB, cube-shaped metadata of edge `size`;
/// otherwise it is the first face that did not, and its error.
pub fn load_cubemap(images: [&[u8]; 6], size: u16) -> (r: Result<TextureData, CubemapError>)
    ensures
        r matches Ok(data) ==> {
            &&& data.metadata == cube_metadata(size)
            &&& forall|i: int| 0 <= i < 6 ==> (#[trigger] data.faces[i]).covers()
        },
        r matches Err(failure) ==> failure.face < 6,
{
    let pos_x = load_texture(images[0]);
    let neg_x = load_texture(images[1]);
    let pos_y = load_texture(images[2]);
    let neg_y = load_texture(images[3]);
    let pos_z = load_texture(images[4]);
    let neg_z = load_texture(images[5]);
    let ghost faces = seq![pos_x, neg_x, pos_y, neg_y, pos_z, neg_z];
    proof {
        if first_failure(faces) is Some {
            lemma_first_failure_exists(faces);
        }
    }
    cubemap_from_faces(pos_x, neg_x, pos_y, neg_y, pos_z, neg_z, size)
}

/// Among faces of which one failed, there is a first one that failed.
proof fn lemma_first_failure_exists(faces: Seq<Result<ImageData, LoadError>>)
    requires
        exists|i: int| 0 <= i < faces.len() && faces[i] is Err,
    ensures
        exists|i: int|
            0 <= i < faces.len() && faces[i] is Err && forall|j: int|
                0 <= j < i ==> faces[j] is Ok,
        first_failure(faces) is Some,
        first_failure(faces)->0.face < faces.len(),
{
    let some = choose|i: int| 0 <= i < faces.len() && faces[i] is Err;
    lemma_least_failure(faces, some);
}

/// Below any failed face lies a first failed face.
proof fn lemma_least_failure(faces: Seq<Result<ImageData, LoadError>>, k: int)
    requires
        0 <= k < faces.len(),
        faces[k] is Err,
    ensures
        exists|i: int|
            0 <= i <= k && faces[i] is Err && forall|j: int| 0 <= j < i ==> faces[j] is Ok,
    decreases k,
{
    if exists|j: int| 0 <= j < k && faces[j] is Err {
        let j = choose|j: int| 0 <= j < k && faces[j] is Err;
        lemma_least_failure(faces, j);
    }
}

} // verus!
