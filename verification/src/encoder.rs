//! Trusted view of the external QR encoder's native symbol object.

use vstd::prelude::*;

verus! {

/// The external encoder's finished QR symbol, carried opaquely: a container
/// of one dark/light module per grid position.
#[verifier::external_type_specification]
#[verifier::external_body]
pub struct ExEncodedSymbol(qrcode::QrCode);

/// What the external QR object holds: its modules, row-major, true for dark.
pub uninterp spec fn qr_modules(q: qrcode::QrCode) -> Seq<bool>;

/// The external QR object's width: its number of modules per side.
pub uninterp spec fn qr_width(q: qrcode::QrCode) -> int;

/// Relies on qrcode::QrCode::width: the number of modules per side of the
/// symbol, without the quiet zone.
#[verifier::external_body]
pub(crate) fn qr_object_width(q: &qrcode::QrCode) -> (w: usize)
    ensures
        w as int == qr_width(*q),
{
    q.width()
}

/// Relies on qrcode::QrCode::into_colors: one color per module, row-major,
/// width * width of them in all; the Dark color is mapped to true.
#[verifier::external_body]
pub(crate) fn qr_object_modules(q: qrcode::QrCode) -> (v: Vec<bool>)
    ensures
        v@ == qr_modules(q),
        v@.len() == qr_width(q) * qr_width(q),
{
    q.into_colors().into_iter().map(|color| matches!(color, qrcode::Color::Dark)).collect()
}

} // verus!
