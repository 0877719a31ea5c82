//! Partial, overridable style records and their field-wise merge.

use vstd::prelude::*;

verus! {

/// A partial style record: a field that is `None` defers to whatever default
/// the host toolkit applies, a field that is `Some` overrides it.
///
/// Colors are packed `0xRRGGBBAA`; lengths are in thousandths of a rem.
#[derive(Clone, Copy, Debug, PartialEq, Eq)]
pub struct StyleRefinement {
    pub background: Option<u32>,
    pub padding: Option<u32>,
    pub corner_radius: Option<u32>,
    pub min_width: Option<u32>,
    pub min_height: Option<u32>,
}

/// The refinement that sets nothing: every field defers to the host default.
pub open spec fn empty_style() -> StyleRefinement {
    StyleRefinement {
        background: None,
        padding: None,
        corner_radius: None,
        min_width: None,
        min_height: None,
    }
}

/// Field-wise override-wins merge: a field set in `over` replaces the
/// corresponding field of `base`; an unset field keeps the base's value.
pub open spec fn spec_refine(base: StyleRefinement, over: StyleRefinement) -> StyleRefinement {
    StyleRefinement {
        background: if over.background is Some {
            over.background
        } else {
            base.background
        },
        padding: if over.padding is Some {
            over.padding
        } else {
            base.padding
        },
        corner_radius: if over.corner_radius is Some {
            over.corner_radius
        } else {
            base.corner_radius
        },
        min_width: if over.min_width is Some {
            over.min_width
        } else {
            base.min_width
        },
        min_height: if over.min_height is Some {
            over.min_height
        } else {
            base.min_height
        },
    }
}

impl StyleRefinement {
    /// The refinement that sets nothing.
    pub fn empty() -> (s: StyleRefinement)
        ensures
            s == empty_style(),
    {
        StyleRefinement {
            background: None,
            padding: None,
            corner_radius: None,
            min_width: None,
            min_height: None,
        }
    }

    /// Merge `over` into `self`: a field set in `over` replaces the
    /// corresponding field of `self`, an unset field leaves it untouched.
    pub fn refine(&mut self, over: &StyleRefinement)
        ensures
            *final(self) == spec_refine(*old(self), *over),
    {
        if over.background.is_some() {
            self.background = over.background;
        }
        if over.padding.is_some() {
            self.padding = over.padding;
        }
        if over.corner_radius.is_some() {
            self.corner_radius = over.corner_radius;
        }
        if over.min_width.is_some() {
            self.min_width = over.min_width;
        }
        if over.min_height.is_some() {
            self.min_height = over.min_height;
        }
    }
}

/// Law: refinement is associative and override-wins. Refining a style with
/// `a` and then with `b` yields exactly the merged field values of a single
/// refinement with `a` refined by `b`, where `b` takes precedence over `a`
/// field by field.
pub proof fn lemma_refine_associative(s: StyleRefinement, a: StyleRefinement, b: StyleRefinement)
    ensures
        spec_refine(spec_refine(s, a), b) == spec_refine(s, spec_refine(a, b)),
{
}

/// Law: refining the empty refinement yields the override itself.
pub proof fn lemma_refine_empty(s: StyleRefinement)
    ensures
        spec_refine(empty_style(), s) == s,
{
}

} // verus!
