//! QR code rendering for share links, as an SVG image.

use vstd::prelude::*;

verus! {

/// What the QR renderer returns for a given identifier's share link.
pub uninterp spec fn qr_svg_of(id: Seq<char>) -> Seq<char>;

/// Relies on `qrcode::QrCode::new` and the `qrcode::render::svg` renderer:
/// an SVG image of a QR code for the share link of `id`; the result depends
/// on `id` alone. `QrCode::new` fails only when the encoded data exceeds QR
/// capacity, which the length bound rules out.
#[verifier::external_body]
pub fn generate_qr_svg(id: &str) -> (r: String)
    requires
        id@.len() <= 512,
    ensures
        r@ == qr_svg_of(id@),
{
    let url = format!("https://mdow.yree.io/view/{}", id);
    let code = qrcode::QrCode::new(url).expect("Failed to generate QR code");
    let svg = code.render::<qrcode::render::svg::Color>().min_dimensions(64, 64).build();
    svg
}

} // verus!
