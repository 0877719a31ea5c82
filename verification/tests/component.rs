use gpui_qrcode::Cell;
use gpui_qrcode::ModuleColor;
use gpui_qrcode::QrCodeComponent;
use gpui_qrcode::StyleRefinement;

fn style(
    background: Option<u32>,
    padding: Option<u32>,
    corner_radius: Option<u32>,
    min_width: Option<u32>,
    min_height: Option<u32>,
) -> StyleRefinement {
    StyleRefinement { background, padding, corner_radius, min_width, min_height }
}

fn unset() -> StyleRefinement {
    style(None, None, None, None, None)
}

fn default_dot() -> StyleRefinement {
    style(Some(0x0000_00FF), None, None, Some(250), Some(250))
}

#[test]
fn end_to_end_two_by_two() {
    let q = QrCodeComponent::new(2, vec![true, false, true, true]);
    let g = q.render();
    assert_eq!(g.cols, 2);
    assert_eq!(g.style, style(Some(0xFFFF_FFFF), None, None, None, None));
    assert_eq!(g.cells.len(), 4);
    // two columns, two rows; row 1 = [filled, empty]; row 2 = [filled, filled]
    let filled: Vec<bool> = g.cells.iter().map(|c| c.filled).collect();
    assert_eq!(filled, vec![true, false, true, true]);
    let rows = (g.cells.len() + g.cols as usize - 1) / g.cols as usize;
    assert_eq!(rows, 2);
    assert_eq!(g.cells[0], Cell { filled: true, style: default_dot() });
    assert_eq!(g.cells[1], Cell { filled: false, style: unset() });
    assert_eq!(g.cells[2], Cell { filled: true, style: default_dot() });
    assert_eq!(g.cells[3], Cell { filled: true, style: default_dot() });
}

#[test]
fn square_grid_shape() {
    let cols: u16 = 3;
    let q = QrCodeComponent::new(cols, vec![false; 9]);
    let g = q.render();
    assert_eq!(g.cells.len(), 9);
    let rows = (g.cells.len() + cols as usize - 1) / cols as usize;
    assert_eq!(rows, 3);
}

#[test]
fn filled_iff_dark() {
    let data = vec![false, true, true, false, true];
    // a ragged final row is rendered as-is: five cells under three columns
    let q = QrCodeComponent::new(3, data.clone());
    let g = q.render();
    assert_eq!(g.cells.len(), 5);
    for (cell, is_dark) in g.cells.iter().zip(data.iter()) {
        assert_eq!(cell.filled, *is_dark);
        assert_eq!(cell.style == unset(), !*is_dark);
    }
}

#[test]
fn refinement_is_associative() {
    let base = style(Some(7), None, Some(9), None, Some(11));
    let a = style(Some(1), Some(2), None, None, None);
    let b = style(Some(3), None, Some(4), None, None);

    let mut one_by_one = base;
    one_by_one.refine(&a);
    one_by_one.refine(&b);

    let mut merged = a;
    merged.refine(&b);
    let mut at_once = base;
    at_once.refine(&merged);

    assert_eq!(one_by_one, at_once);
    // b took precedence over a field by field
    assert_eq!(one_by_one, style(Some(3), Some(2), Some(4), None, Some(11)));
}

#[test]
fn refine_dot_style_overrides() {
    let q = QrCodeComponent::new(10, vec![true; 100]);
    let q = q.refine_dot_style(&style(Some(0xFF00_00FF), None, None, None, None));
    assert_eq!(q.dot_style, style(Some(0xFF00_00FF), None, None, Some(250), Some(250)));
    // the container style is untouched
    assert_eq!(q.style, style(Some(0xFFFF_FFFF), None, None, None, None));
}

#[test]
fn refine_container_style_overrides() {
    let q = QrCodeComponent::new(10, vec![true; 100]);
    let q = q.refine_style(&style(Some(0x0000_FFFF), Some(500), None, None, None));
    assert_eq!(q.style, style(Some(0x0000_FFFF), Some(500), None, None, None));
    // the dot style is untouched
    assert_eq!(q.dot_style, default_dot());
}

#[test]
fn color_variant_matches_boolean_variant() {
    let colors = vec![ModuleColor::Dark, ModuleColor::Light, ModuleColor::Light, ModuleColor::Dark];
    let bools: Vec<bool> = colors.iter().map(|c| matches!(c, ModuleColor::Dark)).collect();
    let from_colors = QrCodeComponent::new_from_colors(2, colors);
    let from_bools = QrCodeComponent::new(2, bools);
    assert_eq!(from_colors, from_bools);
    let g1 = from_colors.render();
    let g2 = from_bools.render();
    assert_eq!(g1, g2);
}
