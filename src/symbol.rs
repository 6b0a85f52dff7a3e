//! QR symbols: building one from bytes at an error-correction level, and
//! rendering it. The encoding and drawing are done by the `qrcode` crate.

use vstd::prelude::*;

verus! {

/// Error-correction level of a QR symbol, from the lowest redundancy to the highest.
#[derive(Clone, Copy, Debug, PartialEq, Eq, Structural)]
pub enum EcLevel {
    L,
    M,
    Q,
    H,
}

/// Declares `qrcode::QrCode`, an encoded symbol, carried unopened.
#[verifier::external_type_specification]
#[verifier::external_body]
pub struct ExQrCode(qrcode::QrCode);

/// Declares `qrcode::types::QrError`, why the data could not be encoded.
#[verifier::external_type_specification]
#[verifier::external_body]
pub struct ExQrError(qrcode::types::QrError);

/// Declares `image::ImageError`, why an image could not be encoded or stored.
#[verifier::external_type_specification]
#[verifier::external_body]
pub struct ExImageError(image::ImageError);

/// Whether `data` fits in a QR symbol at `level`.
pub uninterp spec fn qr_fits(data: Seq<u8>, level: EcLevel) -> bool;

/// The SVG document that the `qrcode` crate draws for `data` at `level`.
pub uninterp spec fn svg_markup(data: Seq<u8>, level: EcLevel) -> Seq<char>;

/// The 8-bit grayscale pixels, row by row, that the `qrcode` crate draws for
/// `data` at `level`.
pub uninterp spec fn luma_raster(data: Seq<u8>, level: EcLevel) -> Seq<u8>;

/// The largest number of input bytes that any QR symbol can hold: version 40
/// at level L stores at most 7089 numeric characters, and every other mode
/// or level stores fewer.
pub const MAX_PAYLOAD: usize = 7089;

/// An encoded QR symbol, with the payload and level it was built from.
pub struct Code {
    inner: qrcode::QrCode,
    payload: Vec<u8>,
    level: EcLevel,
}

impl Code {
    /// The bytes this symbol encodes.
    pub closed spec fn data(&self) -> Seq<u8> {
        self.payload@
    }

    /// The error-correction level this symbol was built at.
    pub closed spec fn ec_level(&self) -> EcLevel {
        self.level
    }

    pub fn payload(&self) -> (r: &Vec<u8>)
        ensures
            r@ == self.data(),
    {
        &self.payload
    }

    pub fn level(&self) -> (r: EcLevel)
        ensures
            r == self.ec_level(),
    {
        self.level
    }
}

/// A grayscale raster: `pixels` holds `height` rows of `width` 8-bit values.
pub struct GrayImage {
    pub width: u32,
    pub height: u32,
    pub pixels: Vec<u8>,
}

impl GrayImage {
    pub open spec fn wf(&self) -> bool {
        self.pixels@.len() == self.width as int * self.height as int
    }
}

/// Relies on `qrcode::QrCode::with_error_correction_level`: it succeeds exactly
/// when the data fits in some symbol at the level, which bounds its length.
#[verifier::external_body]
pub(crate) fn encode(data: Vec<u8>, level: EcLevel) -> (r: Result<Code, qrcode::types::QrError>)
    ensures
        r is Ok <==> qr_fits(data@, level),
        r is Ok ==> r->Ok_0.data() == data@ && r->Ok_0.ec_level() == level,
        r is Ok ==> data@.len() <= MAX_PAYLOAD,
{
    let ec = match level {
        EcLevel::L => qrcode::EcLevel::L,
        EcLevel::M => qrcode::EcLevel::M,
        EcLevel::Q => qrcode::EcLevel::Q,
        EcLevel::H => qrcode::EcLevel::H,
    };
    let inner = qrcode::QrCode::with_error_correction_level(&data, ec)?;
    Ok(Code { inner, payload: data, level })
}

/// Relies on `qrcode::QrCode::render` with the `svg::Color` pixel type and
/// `Renderer::build`: the SVG document for the symbol.
#[verifier::external_body]
pub(crate) fn render_svg(code: &Code) -> (r: String)
    ensures
        r@ == svg_markup(code.data(), code.ec_level()),
{
    code.inner.render::<qrcode::render::svg::Color>().build()
}

/// Relies on `qrcode::QrCode::render` with the `image::Luma<u8>` pixel type and
/// `Renderer::build`: a square grayscale image buffer of one byte per pixel.
#[verifier::external_body]
pub(crate) fn render_luma(code: &Code) -> (r: GrayImage)
    ensures
        r.wf(),
        r.width == r.height,
        r.pixels@ == luma_raster(code.data(), code.ec_level()),
{
    let image = code.inner.render::<image::Luma<u8>>().build();
    let (width, height) = image.dimensions();
    GrayImage { width, height, pixels: image.into_raw() }
}

} // verus!

verus! {

/// Relies on `<qrcode::types::QrError as Display>::fmt`: a description of the error.
#[verifier::external_body]
pub(crate) fn qr_error_text(e: &qrcode::types::QrError) -> String {
    format!("{}", e)
}

/// Relies on `<image::ImageError as Display>::fmt`: a description of the error.
#[verifier::external_body]
pub(crate) fn image_error_text(e: &image::ImageError) -> String {
    format!("{}", e)
}

} // verus!
