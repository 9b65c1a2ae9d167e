//! Which text nodes are handed to the renderer.

use vstd::prelude::*;
use crate::layout::Point;

verus! {

/// Whether the glyphs of a text node are extracted for rendering: the node is
/// visible and has been laid out with a size other than zero. A node whose
/// parent is not displayed has a size of zero.
pub open spec fn extracted(visible: bool, node_size: Point) -> bool {
    visible && node_size != (Point { x: 0, y: 0 })
}

/// Decides whether the glyphs of a text node are extracted for rendering.
pub fn extract_text_uinodes(visible: bool, node_size: Point) -> (extract: bool)
    ensures
        extract == extracted(visible, node_size),
{
    if !visible {
        return false;
    }
    if node_size == Point::zero() {
        return false;
    }
    true
}

} // verus!
