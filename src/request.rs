//! Requests for a QR code: which payload and level they ask for, what goes
//! wrong with them, and what is rendered for them.

use vstd::prelude::*;
use vstd::string::{StrSliceExecFns, StringExecFns};
use vstd::utf8::encode_utf8;
use crate::codec::{
    decode_error_text, decode_url_safe, encode_url_safe, is_url_safe_char, lemma_url_safe_charset,
    url_safe_decoding, url_safe_encoding,
};
use crate::symbol::{
    encode, image_error_text, luma_raster, qr_error_text, qr_fits, render_luma, render_svg, svg_markup, Code, EcLevel, GrayImage,
    MAX_PAYLOAD,
};

verus! {

/// Declares `std::io::Error`, why a file could not be read or removed.
#[verifier::external_type_specification]
#[verifier::external_body]
pub struct ExIoError(std::io::Error);

/// Relies on `<std::io::Error as Display>::fmt`: a description of the error.
#[verifier::external_body]
pub(crate) fn io_error_text(e: &std::io::Error) -> String {
    format!("{}", e)
}

/// Relies on `<String as From<char>>::from`: the string of that one character.
#[verifier::external_body]
pub(crate) fn char_text(c: char) -> (r: String)
    ensures
        r@ == seq![c],
{
    String::from(c)
}

/// The error-correction character used when a request names none.
pub fn default_ec() -> (r: char)
    ensures
        r == 'm',
{
    'm'
}

/// Output format of the rendered code.
#[derive(Clone, Copy, Debug, PartialEq, Eq, Structural)]
pub enum Format {
    Svg,
    Png,
}

impl Default for Format {
    fn default() -> (r: Format)
        ensures
            r == Format::Svg,
    {
        Format::Svg
    }
}

/// A request: the payload as URL-safe base64 (`b64`) or as text (`plain`),
/// exactly one of them, an error-correction character and an output format.
#[derive(Debug)]
pub struct Request {
    pub b64: Option<String>,
    pub plain: Option<String>,
    pub ec: char,
    pub fmt: Format,
}

/// Why a request could not be answered.
#[derive(Debug)]
pub enum Error {
    Base64(base64::DecodeError),
    QR(qrcode::types::QrError),
    MultipleFormats,
    UnsuportedFormat(String),
    NoData,
    ImageProcessing(image::ImageError),
    ReadError(std::io::Error),
    BadErrorCorrection(char),
}

/// What a successful request renders to.
pub enum Response {
    /// SVG markup, served as `image/svg+xml`.
    Svg { markup: String },
    /// A grayscale raster to be stored as PNG at `temp_path`, read back and
    /// served as `image/png`.
    Png { image: GrayImage, temp_path: String },
}

/// The words that name the kind of failure `e`.
pub open spec fn kind_text(e: Error) -> Seq<char> {
    match e {
        Error::Base64(_) => "the base64 payload is malformed"@,
        Error::QR(_) => "the payload cannot be encoded as a QR code"@,
        Error::MultipleFormats => "both b64 and plain were supplied"@,
        Error::UnsuportedFormat(_) => "the requested format is unsupported"@,
        Error::NoData => "neither b64 nor plain was supplied"@,
        Error::ImageProcessing(_) => "the image could not be written"@,
        Error::ReadError(_) => "the image file could not be read or removed"@,
        Error::BadErrorCorrection(c) => "the error correction level "@ + seq![c]
            + " is unknown"@,
    }
}

/// The start of every error message: the fixed preamble and the kind of failure.
pub open spec fn headline(e: Error) -> Seq<char> {
    "Failed to render because "@ + kind_text(e)
}

/// The failure carries a cause, which its message ends with after a colon.
pub open spec fn has_cause(e: Error) -> bool {
    e is Base64 || e is QR || e is UnsuportedFormat || e is ImageProcessing || e is ReadError
}

proof fn lemma_prefix(a: Seq<char>, b: Seq<char>)
    ensures
        (a + b).take(a.len() as int) == a,
{
    assert((a + b).take(a.len() as int) =~= a);
}

impl Error {
    /// The plain-text message for this failure: the headline, then the cause
    /// where there is one.
    pub fn message(&self) -> (r: String)
        ensures
            !has_cause(*self) ==> r@ == headline(*self),
            has_cause(*self) ==> r@.len() >= headline(*self).len() + 2
                && r@.take(headline(*self).len() + 2 as int) == headline(*self) + ": "@,
            self is UnsuportedFormat ==> r@ == headline(*self) + ": "@
                + self->UnsuportedFormat_0@,
    {
        let head = String::from_str("Failed to render because ");
        let (text, cause) = match self {
            Error::Base64(e) => (
                head.concat("the base64 payload is malformed"),
                decode_error_text(e),
            ),
            Error::QR(e) => (
                head.concat("the payload cannot be encoded as a QR code"),
                qr_error_text(e),
            ),
            Error::MultipleFormats => {
                return head.concat("both b64 and plain were supplied");
            },
            Error::UnsuportedFormat(f) => (
                head.concat("the requested format is unsupported"),
                f.clone(),
            ),
            Error::NoData => {
                return head.concat("neither b64 nor plain was supplied");
            },
            Error::ImageProcessing(e) => (
                head.concat("the image could not be written"),
                image_error_text(e),
            ),
            Error::ReadError(e) => (
                head.concat("the image file could not be read or removed"),
                io_error_text(e),
            ),
            Error::BadErrorCorrection(c) => {
                let c_text = char_text(*c);
                let r = head.concat("the error correction level ").concat(c_text.as_str()).concat(
                    " is unknown",
                );
                proof {
                    assert(r@ =~= headline(*self));
                }
                return r;
            },
        };
        let with_colon = text.concat(": ");
        let r = with_colon.concat(cause.as_str());
        proof {
            reveal_strlit(": ");
            assert(text@ == headline(*self));
            assert(with_colon@ =~= headline(*self) + ": "@);
            lemma_prefix(with_colon@, cause@);
        }
        r
    }
}

impl Response {
    /// The media type that the body is served with.
    pub fn content_type(&self) -> (r: &'static str)
        ensures
            self is Svg ==> r@ == "image/svg+xml"@,
            self is Png ==> r@ == "image/png"@,
    {
        match self {
            Response::Svg { .. } => "image/svg+xml",
            Response::Png { .. } => "image/png",
        }
    }
}

impl From<base64::DecodeError> for Error {
    fn from(err: base64::DecodeError) -> (r: Error) {
        Error::Base64(err)
    }
}

impl vstd::std_specs::convert::FromSpecImpl<base64::DecodeError> for Error {
    open spec fn obeys_from_spec() -> bool {
        true
    }

    open spec fn from_spec(err: base64::DecodeError) -> Error {
        Error::Base64(err)
    }
}

impl From<qrcode::types::QrError> for Error {
    fn from(err: qrcode::types::QrError) -> (r: Error) {
        Error::QR(err)
    }
}

impl vstd::std_specs::convert::FromSpecImpl<qrcode::types::QrError> for Error {
    open spec fn obeys_from_spec() -> bool {
        true
    }

    open spec fn from_spec(err: qrcode::types::QrError) -> Error {
        Error::QR(err)
    }
}

impl From<image::ImageError> for Error {
    fn from(err: image::ImageError) -> (r: Error) {
        Error::ImageProcessing(err)
    }
}

impl vstd::std_specs::convert::FromSpecImpl<image::ImageError> for Error {
    open spec fn obeys_from_spec() -> bool {
        true
    }

    open spec fn from_spec(err: image::ImageError) -> Error {
        Error::ImageProcessing(err)
    }
}

impl From<std::io::Error> for Error {
    fn from(err: std::io::Error) -> (r: Error) {
        Error::ReadError(err)
    }
}

impl vstd::std_specs::convert::FromSpecImpl<std::io::Error> for Error {
    open spec fn obeys_from_spec() -> bool {
        true
    }

    open spec fn from_spec(err: std::io::Error) -> Error {
        Error::ReadError(err)
    }
}

/// The level that an error-correction character selects, in either case.
pub open spec fn level_of(c: char) -> Option<EcLevel> {
    if c == 'l' || c == 'L' {
        Some(EcLevel::L)
    } else if c == 'm' || c == 'M' {
        Some(EcLevel::M)
    } else if c == 'q' || c == 'Q' {
        Some(EcLevel::Q)
    } else if c == 'h' || c == 'H' {
        Some(EcLevel::H)
    } else {
        None
    }
}

/// Where the raster for `data` is stored: in `dir`, named after the padded
/// URL-safe base64 of the payload.
pub open spec fn temp_path_of(dir: Seq<char>, separator: Seq<char>, data: Seq<u8>) -> Seq<char> {
    dir + separator + url_safe_encoding(data) + ".png"@
}

impl Request {
    /// The payload bytes, where exactly one source is given and it decodes.
    pub open spec fn payload(&self) -> Option<Seq<u8>> {
        if self.b64 is Some && self.plain is None {
            url_safe_decoding(self.b64->0@)
        } else if self.b64 is None && self.plain is Some {
            Some(encode_utf8(self.plain->0@))
        } else {
            None
        }
    }

    /// The payload decodes, the level is known and the payload fits a symbol.
    pub open spec fn encodable(&self) -> bool {
        &&& self.payload() is Some
        &&& level_of(self.ec) is Some
        &&& qr_fits(self.payload()->0, level_of(self.ec)->0)
    }

    /// `e` is the error that this request fails with; checks are made in the
    /// order sources, base64, level, capacity.
    pub open spec fn fails_with(&self, e: Error) -> bool {
        if self.b64 is Some && self.plain is Some {
            e is MultipleFormats
        } else if self.b64 is None && self.plain is None {
            e is NoData
        } else if self.payload() is None {
            e is Base64
        } else if level_of(self.ec) is None {
            e == Error::BadErrorCorrection(self.ec)
        } else if !self.encodable() {
            e is QR
        } else {
            false
        }
    }

    /// The payload bytes: the decoded `b64`, or the UTF-8 bytes of `plain`.
    pub fn decoded(&self) -> (r: Result<Vec<u8>, Error>)
        ensures
            r is Ok <==> self.payload() is Some,
            r is Ok ==> self.payload() == Some(r->Ok_0@),
            r is Err ==> self.fails_with(r->Err_0),
    {
        match (&self.b64, &self.plain) {
            (Some(b), None) => match decode_url_safe(b) {
                Ok(v) => Ok(v),
                Err(e) => Err(Error::from(e)),
            },
            (None, Some(p)) => Ok(p.as_str().as_bytes_vec()),
            (Some(_), Some(_)) => Err(Error::MultipleFormats),
            (None, None) => Err(Error::NoData),
        }
    }

    /// The error-correction level that `ec` names.
    pub fn ecl(&self) -> (r: Result<EcLevel, Error>)
        ensures
            r is Ok <==> level_of(self.ec) is Some,
            r is Ok ==> level_of(self.ec) == Some(r->Ok_0),
            r is Err ==> r->Err_0 == Error::BadErrorCorrection(self.ec),
    {
        match self.ec {
            'l' | 'L' => Ok(EcLevel::L),
            'm' | 'M' => Ok(EcLevel::M),
            'q' | 'Q' => Ok(EcLevel::Q),
            'h' | 'H' => Ok(EcLevel::H),
            _ => Err(Error::BadErrorCorrection(self.ec)),
        }
    }

    /// The QR symbol for the payload at the requested level.
    pub fn code(&self) -> (r: Result<Code, Error>)
        ensures
            r is Ok <==> self.encodable(),
            r is Ok ==> r->Ok_0.data() == self.payload()->0
                && r->Ok_0.ec_level() == level_of(self.ec)->0,
            r is Ok ==> r->Ok_0.data().len() <= MAX_PAYLOAD,
            r is Err ==> self.fails_with(r->Err_0),
    {
        let decoded = self.decoded()?;
        let level = self.ecl()?;
        match encode(decoded, level) {
            Ok(code) => Ok(code),
            Err(e) => Err(Error::from(e)),
        }
    }

    /// Renders the request: SVG markup, or a raster and the file it is to be
    /// stored in under `temp_dir`.
    pub fn response(&self, temp_dir: &str, separator: &str) -> (r: Result<Response, Error>)
        ensures
            r is Ok <==> self.encodable(),
            r is Err ==> self.fails_with(r->Err_0),
            self.encodable() && self.fmt == Format::Svg ==> r is Ok && r->Ok_0 is Svg,
            self.encodable() && self.fmt == Format::Png ==> r is Ok && r->Ok_0 is Png,
            self.b64 is Some && self.plain is Some ==> r is Err && r->Err_0 is MultipleFormats,
            self.b64 is None && self.plain is None ==> r is Err && r->Err_0 is NoData,
            self.payload() is Some && level_of(self.ec) is None ==> r is Err
                && r->Err_0 == Error::BadErrorCorrection(self.ec),
            self.payload() is Some && level_of(self.ec) is Some && !qr_fits(
                self.payload()->0,
                level_of(self.ec)->0,
            ) ==> r is Err && r->Err_0 is QR,
            r is Ok ==> match r->Ok_0 {
                Response::Svg { markup } => self.fmt == Format::Svg && markup@ == svg_markup(
                    self.payload()->0,
                    level_of(self.ec)->0,
                ),
                Response::Png { image, temp_path } => {
                    &&& self.fmt == Format::Png
                    &&& image.wf()
                    &&& image.width == image.height
                    &&& image.pixels@ == luma_raster(self.payload()->0, level_of(self.ec)->0)
                    &&& temp_path@ == temp_path_of(temp_dir@, separator@, self.payload()->0)
                },
            },
    {
        let code = self.code()?;
        match self.fmt {
            Format::Svg => Ok(Response::Svg { markup: render_svg(&code) }),
            Format::Png => {
                let temp_path = temp_file(temp_dir, separator, &code);
                Ok(Response::Png { image: render_luma(&code), temp_path })
            },
        }
    }
}

/// The file that the raster of `code` is stored in under `dir`.
pub fn temp_file(dir: &str, separator: &str, code: &Code) -> (r: String)
    requires
        code.data().len() <= MAX_PAYLOAD,
    ensures
        r@ == temp_path_of(dir@, separator@, code.data()),
        forall|i: int|
            dir@.len() + separator@.len() <= i < r@.len() - 4 ==> is_url_safe_char(
                #[trigger] r@[i],
            ),
{
    let name = encode_url_safe(code.payload());
    let r = String::from_str(dir).concat(separator).concat(name.as_str()).concat(".png");
    proof {
        reveal_strlit(".png");
        lemma_url_safe_charset(code.data());
        let start = dir@.len() + separator@.len();
        assert forall|i: int| start <= i < r@.len() - 4 implies is_url_safe_char(
            #[trigger] r@[i],
        ) by {
            assert(r@[i] == name@[i - start]);
        }
    }
    r
}

} // verus!
