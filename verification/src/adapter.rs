//! Adapting the external encoder's native QR object into a component.

use vstd::prelude::*;

use crate::encoder::qr_modules;
use crate::encoder::qr_object_modules;
use crate::encoder::qr_object_width;
use crate::encoder::qr_width;
use crate::qr::QrCodeComponent;
use crate::qr::default_container_style;
use crate::qr::default_dot_style;

verus! {

/// Why adapting an external QR object can fail.
#[derive(Clone, Copy, Debug, PartialEq, Eq)]
pub enum QrCodeRenderError {
    /// The object's width does not fit the 16-bit column-count type.
    ExceededWidth,
}

impl QrCodeComponent {
    /// Build a component from a width and a flat module sequence, as an
    /// external adapter hands them over. Succeeds exactly when the width
    /// fits the 16-bit column-count type; fails with `ExceededWidth`, and
    /// builds nothing, otherwise.
    pub fn from_width_and_modules(width: usize, modules: Vec<bool>) -> (r: Result<
        QrCodeComponent,
        QrCodeRenderError,
    >)
        ensures
            width <= u16::MAX ==> (r matches Ok(q) && q.cols as int == width && q.data@
                == modules@ && q.style == default_container_style() && q.dot_style
                == default_dot_style()),
            width > u16::MAX ==> (r matches Err(e) && e == QrCodeRenderError::ExceededWidth),
    {
        if width > u16::MAX as usize {
            Err(QrCodeRenderError::ExceededWidth)
        } else {
            Ok(QrCodeComponent::new(width as u16, modules))
        }
    }

    /// Adapt the external encoder's QR object. Succeeds exactly when the
    /// object's width fits the 16-bit column-count type, and then preserves
    /// the width and the per-module dark/light pattern exactly, under the
    /// built-in styles; fails with `ExceededWidth` otherwise.
    pub fn try_from_qr(code: qrcode::QrCode) -> (r: Result<QrCodeComponent, QrCodeRenderError>)
        ensures
            qr_width(code) <= u16::MAX ==> (r matches Ok(q) && q.cols as int == qr_width(code)
                && q.data@ == qr_modules(code) && q.style == default_container_style()
                && q.dot_style == default_dot_style()),
            qr_width(code) > u16::MAX ==> (r matches Err(e) && e
                == QrCodeRenderError::ExceededWidth),
    {
        let width = qr_object_width(&code);
        let modules = qr_object_modules(code);
        QrCodeComponent::from_width_and_modules(width, modules)
    }
}

} // verus!
