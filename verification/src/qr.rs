//! QR rendering of pairing URIs.
//!
//! The URI format is the interop contract and is built and specified here
//! exactly; rendering it into an SVG document or a PNG data URL is a pure
//! encode done by the QR library.

use crate::encode::{b64_of, to_base64};
use vstd::prelude::*;

verus! {

/// Why QR generation failed.
#[derive(Clone, Copy, PartialEq, Eq, Structural, Debug)]
pub enum QrError {
    /// The QR encoder declined the data, e.g. it exceeds QR capacity.
    Encoding,
}

/// Rendering is owed success up to this many characters.  `qrcode::QrCode::new`
/// encodes at error-correction level M, whose largest version holds 2331 bytes
/// of byte-mode data; UTF-8 spends at most four bytes per character, so 500
/// characters stay well within capacity.
pub const QR_CHAR_LIMIT: usize = 500;

/// The SVG document the QR renderer produces for a data string.
pub uninterp spec fn qr_svg_of(data: Seq<char>) -> Seq<char>;

/// The PNG image the QR renderer produces for a data string.
pub uninterp spec fn qr_png_of(data: Seq<char>) -> Seq<u8>;

/// The pairing URI binding a device id to a public key; preserved bit-for-bit
/// for interop.
pub open spec fn pairing_uri_of(device_id: Seq<char>, public_key: Seq<u8>) -> Seq<char> {
    "bridgex://pair?id="@ + device_id + "&key="@ + b64_of(public_key)
}

/// The PNG data URL carrying the QR code for a data string.
pub open spec fn qr_data_url_of(data: Seq<char>) -> Seq<char> {
    "data:image/png;base64,"@ + b64_of(qr_png_of(data))
}

/// Relies on `qrcode::QrCode::new` and the `qrcode::render` SVG pipeline
/// (`min_dimensions`, `dark_color`, `light_color`, `build`): a deterministic
/// render of the data string alone.  `QrCode::new` fails only when the data
/// cannot fit its largest version, so up to [`QR_CHAR_LIMIT`] characters it
/// succeeds; building the SVG string cannot fail.
#[verifier::external_body]
fn render_qr_svg(data: &str) -> (r: Option<String>)
    ensures
        r matches Some(svg) ==> svg@ == qr_svg_of(data@),
        data@.len() <= QR_CHAR_LIMIT ==> r is Some,
{
    let code = qrcode::QrCode::new(data.as_bytes()).ok()?;
    let svg = code
        .render()
        .min_dimensions(300, 300)
        .dark_color(qrcode::render::svg::Color("#000000"))
        .light_color(qrcode::render::svg::Color("#ffffff"))
        .build();
    Some(svg)
}

/// Relies on `qrcode::QrCode::new`, the `qrcode::render` pipeline for
/// `image::Luma<u8>`, and `image::DynamicImage::write_to` with
/// `image::ImageFormat::Png`: a deterministic PNG render of the data string
/// alone.  Up to [`QR_CHAR_LIMIT`] characters the encode succeeds, and writing
/// the PNG of the rendered image (at least 300 pixels square) into an
/// in-memory buffer cannot fail.
#[verifier::external_body]
fn render_qr_png(data: &str) -> (r: Option<Vec<u8>>)
    ensures
        r matches Some(png) ==> png@ == qr_png_of(data@),
        data@.len() <= QR_CHAR_LIMIT ==> r is Some,
{
    let code = qrcode::QrCode::new(data.as_bytes()).ok()?;
    let img = code.render::<image::Luma<u8>>().min_dimensions(300, 300).build();
    let mut buf = std::io::Cursor::new(Vec::new());
    image::DynamicImage::ImageLuma8(img).write_to(&mut buf, image::ImageFormat::Png).ok()?;
    Some(buf.into_inner())
}

/// Render a data string as an SVG QR code; owed success up to
/// [`QR_CHAR_LIMIT`] characters.
pub fn generate_qr_svg(data: &str) -> (r: Result<String, QrError>)
    ensures
        r matches Ok(svg) ==> svg@ == qr_svg_of(data@),
        r matches Err(e) ==> e == QrError::Encoding,
        data@.len() <= QR_CHAR_LIMIT ==> r is Ok,
{
    match render_qr_svg(data) {
        Some(svg) => Ok(svg),
        None => Err(QrError::Encoding),
    }
}

/// Render a data string as a QR code in a base64 PNG data URL; owed success
/// up to [`QR_CHAR_LIMIT`] characters.
pub fn generate_qr_data_url(data: &str) -> (r: Result<String, QrError>)
    ensures
        r matches Ok(url) ==> url@ == qr_data_url_of(data@),
        r matches Err(e) ==> e == QrError::Encoding,
        data@.len() <= QR_CHAR_LIMIT ==> r is Ok,
{
    match render_qr_png(data) {
        Some(png) => {
            let mut s = String::new();
            s.append("data:image/png;base64,");
            let b64 = to_base64(png.as_slice());
            s.append(b64.as_str());
            proof {
                assert(s@ =~= qr_data_url_of(data@));
            }
            Ok(s)
        },
        None => Err(QrError::Encoding),
    }
}

/// Build the pairing URI for a device id and public key.  Its length is the
/// two fixed parts (23 characters) plus the id and the base64 key.
pub fn pairing_uri(device_id: &str, public_key: &[u8]) -> (r: String)
    ensures
        r@ == pairing_uri_of(device_id@, public_key@),
        r@.len() == 23 + device_id@.len() + 4 * ((public_key@.len() + 2) / 3),
{
    let mut s = String::new();
    s.append("bridgex://pair?id=");
    s.append(device_id);
    s.append("&key=");
    let b64 = to_base64(public_key);
    s.append(b64.as_str());
    proof {
        assert(s@ =~= pairing_uri_of(device_id@, public_key@));
        reveal_strlit("bridgex://pair?id=");
        reveal_strlit("&key=");
    }
    s
}

/// Build the pairing URI and render it as a QR data URL; returns the data URL
/// and the URI it encodes.  Success is owed whenever the URI fits within
/// [`QR_CHAR_LIMIT`] characters.
pub fn generate_pairing_qr(device_id: &str, public_key: &[u8]) -> (r: Result<
    (String, String),
    QrError,
>)
    ensures
        r matches Ok(p) ==> p.1@ == pairing_uri_of(device_id@, public_key@) && p.0@
            == qr_data_url_of(p.1@),
        r matches Err(e) ==> e == QrError::Encoding,
        23 + device_id@.len() + 4 * ((public_key@.len() + 2) / 3) <= QR_CHAR_LIMIT ==> r is Ok,
{
    let uri = pairing_uri(device_id, public_key);
    match generate_qr_data_url(uri.as_str()) {
        Ok(url) => Ok((url, uri)),
        Err(e) => Err(e),
    }
}

} // verus!
