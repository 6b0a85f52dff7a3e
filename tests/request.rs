use qr_service::{default_ec, EcLevel, Error, Format, GrayImage, Request, Response};

fn request(b64: Option<&str>, plain: Option<&str>, ec: char, fmt: Format) -> Request {
    Request {
        b64: b64.map(|s| s.to_string()),
        plain: plain.map(|s| s.to_string()),
        ec,
        fmt,
    }
}

fn scan(width: u32, height: u32, pixels: &[u8]) -> String {
    let w = width as usize;
    let mut prepared = rqrr::PreparedImage::prepare_from_greyscale(w, height as usize, |x, y| {
        pixels[y * w + x]
    });
    let grids = prepared.detect_grids();
    assert_eq!(grids.len(), 1);
    grids[0].decode().unwrap().1
}

fn scan_image(image: &GrayImage) -> String {
    assert_eq!(image.pixels.len(), (image.width * image.height) as usize);
    scan(image.width, image.height, &image.pixels)
}

fn png_bytes(image: &GrayImage) -> Vec<u8> {
    let mut out = Vec::new();
    image::png::PngEncoder::new(&mut out)
        .encode(&image.pixels, image.width, image.height, image::ColorType::L8)
        .unwrap();
    out
}

#[test]
fn plain_hello_renders_svg() {
    let r = request(None, Some("hello"), default_ec(), Format::default());
    match r.response("tmp", "/") {
        Ok(rendered @ Response::Svg { .. }) => {
            assert_eq!(rendered.content_type(), "image/svg+xml");
            let Response::Svg { markup } = rendered else { unreachable!() };
            assert!(markup.starts_with("<?xml"));
            assert!(markup.contains("<svg"));
            assert!(markup.trim_end().ends_with("</svg>"));
        }
        _ => panic!("expected SVG output"),
    }
    assert_eq!(r.ecl().unwrap(), EcLevel::M);
}

#[test]
fn b64_hello_renders_png() {
    let r = request(Some("aGVsbG8"), None, 'm', Format::Png);
    match r.response("tmp", "/") {
        Ok(rendered @ Response::Png { .. }) => {
            assert_eq!(rendered.content_type(), "image/png");
            let Response::Png { image, temp_path } = rendered else { unreachable!() };
            assert_eq!(temp_path, "tmp/aGVsbG8=.png");
            let bytes = png_bytes(&image);
            assert_eq!(&bytes[1..4], b"PNG");
            let back = image::load_from_memory(&bytes).unwrap().to_luma8();
            let (w, h) = back.dimensions();
            assert_eq!(scan(w, h, back.as_raw()), "hello");
        }
        _ => panic!("expected PNG output"),
    }
}

#[test]
fn both_sources_are_multiple_formats() {
    let r = request(Some("aGk"), Some("hi"), 'm', Format::Svg);
    assert!(matches!(r.response("tmp", "/"), Err(Error::MultipleFormats)));
    let bad = request(Some("!!"), Some("hi"), 'z', Format::Png);
    assert!(matches!(bad.response("tmp", "/"), Err(Error::MultipleFormats)));
}

#[test]
fn bad_error_correction_character() {
    let r = request(None, Some("hi"), 'z', Format::Svg);
    assert!(matches!(r.response("tmp", "/"), Err(Error::BadErrorCorrection('z'))));
    for c in ['x', '1', 'n', ' ', 'é'] {
        let r = request(Some("aGk"), None, c, Format::Png);
        assert!(matches!(r.ecl(), Err(Error::BadErrorCorrection(d)) if d == c));
        assert!(matches!(r.response("tmp", "/"), Err(Error::BadErrorCorrection(d)) if d == c));
    }
}

#[test]
fn no_source_is_no_data() {
    let r = request(None, None, 'm', Format::Svg);
    assert!(matches!(r.response("tmp", "/"), Err(Error::NoData)));
    assert!(matches!(r.decoded(), Err(Error::NoData)));
}

#[test]
fn invalid_base64_is_base64_error() {
    let r = request(Some("a*b"), None, 'm', Format::Svg);
    assert!(matches!(r.decoded(), Err(Error::Base64(_))));
    assert!(matches!(r.response("tmp", "/"), Err(Error::Base64(_))));
    let standard_alphabet = request(Some("+/+/"), None, 'm', Format::Svg);
    assert!(matches!(standard_alphabet.decoded(), Err(Error::Base64(_))));
}

#[test]
fn url_safe_alphabet_decodes() {
    let r = request(Some("-_-_"), None, 'm', Format::Svg);
    assert_eq!(r.decoded().unwrap(), vec![0xfb, 0xff, 0xbf]);
}

#[test]
fn plain_payload_is_utf8_bytes() {
    let r = request(None, Some("hé"), 'm', Format::Svg);
    assert_eq!(r.decoded().unwrap(), vec![0x68, 0xc3, 0xa9]);
}

#[test]
fn every_level_character_in_both_cases() {
    let cases = [
        ('l', EcLevel::L),
        ('L', EcLevel::L),
        ('m', EcLevel::M),
        ('M', EcLevel::M),
        ('q', EcLevel::Q),
        ('Q', EcLevel::Q),
        ('h', EcLevel::H),
        ('H', EcLevel::H),
    ];
    for (c, level) in cases {
        let r = request(None, Some("x"), c, Format::Svg);
        assert_eq!(r.ecl().unwrap(), level);
        let code = r.code().unwrap();
        assert_eq!(code.level(), level);
        assert_eq!(code.payload(), &vec![b'x']);
    }
}

#[test]
fn raster_scans_back_at_every_level() {
    let payload = "https://example.org/?q=QR code round trip 0123456789";
    for c in ['l', 'm', 'q', 'h'] {
        let r = request(None, Some(payload), c, Format::Png);
        match r.response("out", "/") {
            Ok(Response::Png { image, .. }) => {
                assert_eq!(image.width, image.height);
                assert_eq!(scan_image(&image), payload);
            }
            _ => panic!("expected PNG output"),
        }
        let svg = request(None, Some(payload), c, Format::Svg);
        assert!(matches!(svg.response("out", "/"), Ok(Response::Svg { .. })));
    }
}

#[test]
fn oversized_payload_is_qr_error() {
    let long = "a".repeat(8000);
    for c in ['l', 'm', 'q', 'h'] {
        let r = request(None, Some(&long), c, Format::Svg);
        assert!(matches!(r.response("tmp", "/"), Err(Error::QR(_))));
        assert!(matches!(r.code(), Err(Error::QR(_))));
    }
    let binary = "é".repeat(1400);
    let high = request(None, Some(&binary), 'h', Format::Png);
    assert!(matches!(high.response("tmp", "/"), Err(Error::QR(_))));
    let low = request(None, Some(&binary), 'l', Format::Png);
    assert!(matches!(low.response("tmp", "/"), Ok(Response::Png { .. })));
}

#[test]
fn temp_file_is_named_by_payload() {
    let r = request(None, Some("hi"), 'm', Format::Png);
    let code = r.code().unwrap();
    assert_eq!(qr_service::request::temp_file("/var/tmp", "/", &code), "/var/tmp/aGk=.png");
    assert_eq!(qr_service::request::temp_file("C:\\tmp", "\\", &code), "C:\\tmp\\aGk=.png");
    let u = request(None, Some("\u{fb}\u{ff}"), 'm', Format::Png);
    let code = u.code().unwrap();
    assert_eq!(qr_service::request::temp_file("t", "/", &code), "t/w7vDvw==.png");
    let bin = request(Some("-_-_+A"), None, 'm', Format::Png);
    assert!(bin.code().is_err());
    let bin = request(Some("-_-_AAA"), None, 'm', Format::Png);
    let code = bin.code().unwrap();
    assert_eq!(code.payload(), &vec![0xfb, 0xff, 0xbf, 0, 0]);
    assert_eq!(qr_service::request::temp_file("t", "/", &code), "t/-_-_AAA=.png");
}

#[test]
fn defaults() {
    assert_eq!(default_ec(), 'm');
    assert_eq!(Format::default(), Format::Svg);
}

#[test]
fn outside_errors_convert() {
    let e: Error = base64::DecodeError::InvalidLength.into();
    assert!(matches!(e, Error::Base64(base64::DecodeError::InvalidLength)));
    let e: Error = qrcode::types::QrError::DataTooLong.into();
    assert!(matches!(e, Error::QR(qrcode::types::QrError::DataTooLong)));
    let e: Error = std::io::Error::from(std::io::ErrorKind::NotFound).into();
    assert!(matches!(e, Error::ReadError(ref io) if io.kind() == std::io::ErrorKind::NotFound));
}

#[test]
fn error_messages_name_the_failure() {
    let both = request(Some("aGk"), Some("hi"), 'm', Format::Svg).response("tmp", "/");
    assert_eq!(
        both.err().unwrap().message(),
        "Failed to render because both b64 and plain were supplied"
    );
    let bad = request(None, Some("hi"), 'z', Format::Svg).response("tmp", "/");
    assert_eq!(
        bad.err().unwrap().message(),
        "Failed to render because the error correction level z is unknown"
    );
    let none = request(None, None, 'm', Format::Svg).response("tmp", "/");
    assert_eq!(
        none.err().unwrap().message(),
        "Failed to render because neither b64 nor plain was supplied"
    );
    assert_eq!(
        Error::UnsuportedFormat("gif".to_string()).message(),
        "Failed to render because the requested format is unsupported: gif"
    );
}

#[test]
fn error_messages_carry_the_cause() {
    let b64 = request(Some("a*b"), None, 'm', Format::Svg).response("tmp", "/");
    let text = b64.err().unwrap().message();
    assert!(text.starts_with("Failed to render because the base64 payload is malformed: "));
    assert!(text.contains(&base64::DecodeError::InvalidByte(1, b'*').to_string()));
    let long = "a".repeat(8000);
    let qr = request(None, Some(&long), 'l', Format::Svg).response("tmp", "/");
    assert_eq!(
        qr.err().unwrap().message(),
        format!(
            "Failed to render because the payload cannot be encoded as a QR code: {}",
            qrcode::types::QrError::DataTooLong
        )
    );
    let io: Error = std::io::Error::new(std::io::ErrorKind::NotFound, "gone").into();
    assert_eq!(
        io.message(),
        "Failed to render because the image file could not be read or removed: gone"
    );
}
