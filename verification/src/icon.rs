use vstd::prelude::*;

verus! {

/// A picture as a run of pixels of four bytes each (red, green, blue,
/// alpha), row after row, with the width and height it claims.
pub struct Rgba8 {
    pub pixels: Seq<u8>,
    pub width: u32,
    pub height: u32,
}

impl Rgba8 {
    /// The bytes are exactly those of `width * height` pixels.
    pub open spec fn wf(self) -> bool {
        self.pixels.len() == 4 * (self.width * self.height)
    }
}

/// Why a run of bytes was refused as the pixels of an icon.
#[derive(Debug, Clone, Copy, PartialEq, Eq, Structural)]
pub enum BadIcon {
    /// The number of bytes is no multiple of four.
    ByteCountNotDivisibleBy4 { byte_count: usize },
    /// The number of pixels is not `width * height`.
    DimensionsVsPixelCount { width: u32, height: u32, width_x_height: u64, pixel_count: usize },
}

/// What is wrong with `pixels` as the bytes of a `width` by `height` icon,
/// if anything: the byte count is looked at first, then the pixel count.
pub open spec fn icon_defect(pixels: Seq<u8>, width: u32, height: u32) -> Option<BadIcon> {
    if pixels.len() % 4 != 0 {
        Some(BadIcon::ByteCountNotDivisibleBy4 { byte_count: pixels.len() as usize })
    } else if pixels.len() / 4 != width * height {
        Some(
            BadIcon::DimensionsVsPixelCount {
                width,
                height,
                width_x_height: (width * height) as u64,
                pixel_count: (pixels.len() / 4) as usize,
            },
        )
    } else {
        None
    }
}

/// The decoded picture of an icon, ready to be handed to the tray. It
/// always holds exactly the pixels of its width and height.
#[derive(Debug)]
pub struct IconImage {
    rgba: Vec<u8>,
    width: u32,
    height: u32,
}

impl View for IconImage {
    type V = Rgba8;

    closed spec fn view(&self) -> Rgba8 {
        Rgba8 { pixels: self.rgba@, width: self.width, height: self.height }
    }
}

impl IconImage {
    #[verifier::type_invariant]
    closed spec fn inv(&self) -> bool {
        self@.wf()
    }

    /// Takes `rgba` as the pixels of a `width` by `height` icon, if it
    /// holds exactly that many pixels of four bytes. The product of the
    /// dimensions is taken in full, so that no pair of them wraps around to
    /// a pixel count that fits.
    pub fn from_rgba(rgba: Vec<u8>, width: u32, height: u32) -> (made: Result<IconImage, BadIcon>)
        ensures
            made matches Ok(icon) ==> icon@ == (Rgba8 { pixels: rgba@, width, height }),
            made matches Ok(_) ==> icon_defect(rgba@, width, height) is None,
            made matches Err(bad) ==> icon_defect(rgba@, width, height) == Some(bad),
    {
        let byte_count: usize = rgba.len();
        if byte_count % 4 != 0 {
            return Err(BadIcon::ByteCountNotDivisibleBy4 { byte_count });
        }
        let pixel_count: usize = byte_count / 4;
        assert(width * height <= 0xffff_ffff * 0xffff_ffff) by (nonlinear_arith)
            requires
                0 <= width <= 0xffff_ffff,
                0 <= height <= 0xffff_ffff,
        ;
        let width_x_height: u64 = (width as u64) * (height as u64);
        if pixel_count as u64 != width_x_height {
            Err(BadIcon::DimensionsVsPixelCount { width, height, width_x_height, pixel_count })
        } else {
            Ok(IconImage { rgba, width, height })
        }
    }

    /// The pixels, four bytes each, `width * height` of them.
    pub fn rgba(&self) -> (rgba: &Vec<u8>)
        ensures
            rgba@ == self@.pixels,
            self@.wf(),
    {
        proof {
            use_type_invariant(self);
        }
        &self.rgba
    }

    pub fn width(&self) -> (width: u32)
        ensures
            width == self@.width,
    {
        self.width
    }

    pub fn height(&self) -> (height: u32)
        ensures
            height == self@.height,
    {
        self.height
    }
}

impl Clone for IconImage {
    fn clone(&self) -> (copy: IconImage)
        ensures
            copy@ == self@,
    {
        proof {
            use_type_invariant(self);
        }
        IconImage { rgba: self.rgba.clone(), width: self.width, height: self.height }
    }
}

/// Why no icon could be had from an asset. Each of these ends the
/// application: it has no use without its icon.
#[derive(Debug, Clone, Copy, PartialEq, Eq, Structural)]
pub enum IconError {
    /// The asset could not be read.
    Unreadable,
    /// The extension names no image format, or the contents could not be
    /// decoded as an image of the format that it names.
    Undecodable,
    /// The decoded bytes do not fit the decoded dimensions.
    BadIcon(BadIcon),
}

impl IconError {
    /// The words with which the application gives up on this error.
    pub fn message(&self) -> (text: &'static str)
        ensures
            *self is BadIcon ==> text@ == "Failed to open icon"@,
            !(*self is BadIcon) ==> text@ == "Failed to open icon path"@,
    {
        match self {
            IconError::BadIcon(_) => "Failed to open icon",
            _ => "Failed to open icon path",
        }
    }
}

/// The picture that `contents` holds when read as an image of the format
/// that `extension` stands for, with every pixel turned into four bytes;
/// `None` where the extension stands for no format or the contents cannot be
/// decoded in it.
pub uninterp spec fn decoded_rgba8(extension: Seq<char>, contents: Seq<u8>) -> Option<Rgba8>;

/// `image::load_from_memory_with_format`, in the format that
/// `image::ImageFormat::from_extension` finds for the extension, with what
/// was decoded brought into bytes by `DynamicImage::into_rgba8`,
/// `ImageBuffer::dimensions` and `ImageBuffer::into_raw`. The pixels and the
/// dimensions are found from the extension and the bytes alone; `None` is an
/// extension that names no format, or any error of the decoder. Nothing is
/// claimed of how the number of bytes relates to the dimensions.
#[verifier::external_body]
fn decode_rgba8(extension: &str, contents: &[u8]) -> (decoded: Option<(Vec<u8>, u32, u32)>)
    ensures
        decoded_view(decoded) == decoded_rgba8(extension@, contents@),
{
    let format = image::ImageFormat::from_extension(extension)?;
    let pixels = image::load_from_memory_with_format(contents, format).ok()?.into_rgba8();
    let (width, height) = pixels.dimensions();
    Some((pixels.into_raw(), width, height))
}

/// A decoded picture as a value.
pub open spec fn decoded_view(decoded: Option<(Vec<u8>, u32, u32)>) -> Option<Rgba8> {
    match decoded {
        Some((rgba, width, height)) => Some(Rgba8 { pixels: rgba@, width, height }),
        None => None,
    }
}

/// The contents of an asset as a value; `None` is an asset that could not
/// be read.
pub open spec fn asset_view(asset: Option<Vec<u8>>) -> Option<Seq<u8>> {
    match asset {
        Some(contents) => Some(contents@),
        None => None,
    }
}

/// The icon that a decoded picture makes: none where nothing was decoded,
/// and none where the bytes do not fit the dimensions.
pub open spec fn icon_of_decoded(decoded: Option<Rgba8>) -> Result<Rgba8, IconError> {
    match decoded {
        None => Err(IconError::Undecodable),
        Some(picture) => match icon_defect(picture.pixels, picture.width, picture.height) {
            Some(bad) => Err(IconError::BadIcon(bad)),
            None => Ok(picture),
        },
    }
}

/// The icon that an asset makes: the asset must have been read, its
/// contents must decode in the format that its extension names, and the
/// decoded bytes must fit the decoded dimensions.
pub open spec fn icon_of_asset(extension: Seq<char>, asset: Option<Seq<u8>>) -> Result<Rgba8, IconError> {
    match asset {
        None => Err(IconError::Unreadable),
        Some(contents) => icon_of_decoded(decoded_rgba8(extension, contents)),
    }
}

/// `loaded` is `expected`: the same error, or an icon with that picture.
pub open spec fn loads_as(loaded: Result<IconImage, IconError>, expected: Result<Rgba8, IconError>) -> bool {
    match loaded {
        Ok(icon) => expected == Ok::<Rgba8, IconError>(icon@),
        Err(error) => expected == Err::<Rgba8, IconError>(error),
    }
}

/// Checks a decoded picture and makes the icon of it.
pub fn icon_from_decoded(decoded: Option<(Vec<u8>, u32, u32)>) -> (loaded: Result<IconImage, IconError>)
    ensures
        loads_as(loaded, icon_of_decoded(decoded_view(decoded))),
{
    match decoded {
        None => Err(IconError::Undecodable),
        Some((rgba, width, height)) => match IconImage::from_rgba(rgba, width, height) {
            Ok(icon) => Ok(icon),
            Err(bad) => Err(IconError::BadIcon(bad)),
        },
    }
}

/// Decodes the icon asset. `extension` is the extension of the asset's file
/// name, which alone decides the format, and `asset` is what reading the
/// file gave: its contents, or `None` where it could not be read.
pub fn load_icon(extension: &str, asset: Option<Vec<u8>>) -> (loaded: Result<IconImage, IconError>)
    ensures
        loads_as(loaded, icon_of_asset(extension@, asset_view(asset))),
{
    match asset {
        None => Err(IconError::Unreadable),
        Some(contents) => icon_from_decoded(decode_rgba8(extension, contents.as_slice())),
    }
}

/// Loading is repeatable: two loads of the same asset under the same
/// extension fail with the same error, or give pictures of equal width,
/// height and bytes.
pub proof fn lemma_load_icon_repeatable(
    extension: Seq<char>,
    asset: Option<Seq<u8>>,
    first: Result<IconImage, IconError>,
    second: Result<IconImage, IconError>,
)
    requires
        loads_as(first, icon_of_asset(extension, asset)),
        loads_as(second, icon_of_asset(extension, asset)),
    ensures
        first is Ok <==> second is Ok,
        first matches Ok(a) ==> (second matches Ok(b) && a@.width == b@.width),
        first matches Ok(a) ==> (second matches Ok(b) && a@.height == b@.height),
        first matches Ok(a) ==> (second matches Ok(b) && a@.pixels == b@.pixels),
        first matches Err(a) ==> second == Err::<IconImage, IconError>(a),
{
}

} // verus!
