use vstd::prelude::*;

verus! {

/// Which axis of the view absorbs the window's width-to-height ratio, so that shapes
/// keep their proportions: the width stays fixed and the vertical scale follows the
/// ratio, the height stays fixed and the horizontal scale follows it, or neither.
#[allow(non_camel_case_types)]
#[derive(Debug, Clone, Copy, PartialEq, Eq, Structural)]
pub enum ASPECT_RATIO_BEHAVIOR {
    FixedWidth,
    FixedHeight,
    NoEffect,
}

} // verus!
