use gpui_qrcode::QrCodeComponent;
use gpui_qrcode::QrCodeRenderError;

#[test]
fn adapting_a_real_symbol_preserves_width_and_pattern() {
    let code = qrcode::QrCode::new(b"01234567").unwrap();
    let width = code.width();
    let expected: Vec<bool> =
        code.to_colors().iter().map(|c| *c == qrcode::Color::Dark).collect();

    let component = QrCodeComponent::try_from_qr(code).unwrap();

    // a short numeric payload encodes as the smallest symbol: 21 modules wide
    assert_eq!(width, 21);
    assert_eq!(component.cols, 21);
    assert_eq!(component.data.len(), 21 * 21);
    assert_eq!(component.data, expected);
    // the corners of the top finder patterns are always dark
    assert!(component.data[0]);
    assert!(component.data[20]);
    // the separator to the right of the top-left finder pattern is light
    assert!(!component.data[7]);
}

#[test]
fn width_within_u16_succeeds() {
    let r = QrCodeComponent::from_width_and_modules(65535, vec![true, false]);
    let q = r.unwrap();
    assert_eq!(q.cols, 65535);
    assert_eq!(q.data, vec![true, false]);
}

#[test]
fn width_beyond_u16_fails_with_overflow() {
    let r = QrCodeComponent::from_width_and_modules(65536, vec![false; 4]);
    assert_eq!(r, Err(QrCodeRenderError::ExceededWidth));
}
