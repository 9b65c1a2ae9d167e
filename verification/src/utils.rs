//! Geometry shared by the widgets.

use vstd::prelude::*;
use crate::layout::{Bounds, Interaction, Point, fits, half, larger, smaller};

verus! {

/// The lower corner of a node, on one axis, from its centre and its size.
pub open spec fn node_low(center: int, size: int) -> int {
    center - half(size)
}

/// The upper corner of a node, on one axis, from its centre and its size.
pub open spec fn node_high(center: int, size: int) -> int {
    center + half(size)
}

/// Whether both corners of the node fit a coordinate, on both axes.
pub open spec fn node_corners_fit(position: Point, size: Point) -> bool {
    &&& fits(node_low(position.x as int, size.x as int))
    &&& fits(node_low(position.y as int, size.y as int))
    &&& fits(node_high(position.x as int, size.x as int))
    &&& fits(node_high(position.y as int, size.y as int))
}

/// The rectangle that a node covers, cut down to its clip.
///
/// The node is centred on `position`. Without a clip the result is the node's
/// own rectangle; with one, each lower corner is raised to the clip's and each
/// upper corner lowered to it. The result can be empty (a lower corner above
/// the upper one) when node and clip do not meet.
pub open spec fn clipped_rect(position: Point, size: Point, clip: Option<Bounds>) -> (int, int, int, int) {
    let low_x = node_low(position.x as int, size.x as int);
    let low_y = node_low(position.y as int, size.y as int);
    let high_x = node_high(position.x as int, size.x as int);
    let high_y = node_high(position.y as int, size.y as int);
    match clip {
        Some(c) => (
            larger(low_x, c.min.x as int),
            larger(low_y, c.min.y as int),
            smaller(high_x, c.max.x as int),
            smaller(high_y, c.max.y as int),
        ),
        None => (low_x, low_y, high_x, high_y),
    }
}

/// Computes the rectangle that a node covers on screen, cut down to `clip`.
pub fn get_uinode_clipped_rect(position: Point, size: Point, clip: Option<Bounds>) -> (r: (Point, Point))
    requires
        node_corners_fit(position, size),
    ensures
        (r.0.x as int, r.0.y as int, r.1.x as int, r.1.y as int) == clipped_rect(position, size, clip),
{
    let ex: i32 = size.x / 2;
    let ey: i32 = size.y / 2;
    let mut min = Point { x: position.x - ex, y: position.y - ey };
    let mut max = Point { x: position.x + ex, y: position.y + ey };
    if let Some(c) = clip {
        if c.min.x > min.x {
            min.x = c.min.x;
        }
        if c.min.y > min.y {
            min.y = c.min.y;
        }
        if c.max.x < max.x {
            max.x = c.max.x;
        }
        if c.max.y < max.y {
            max.y = c.max.y;
        }
    }
    (min, max)
}

/// A clipped rectangle lies inside the clip and inside the node.
pub proof fn lemma_clipped_rect_within(position: Point, size: Point, clip: Bounds)
    ensures
        clipped_rect(position, size, Some(clip)).0 >= clip.min.x,
        clipped_rect(position, size, Some(clip)).1 >= clip.min.y,
        clipped_rect(position, size, Some(clip)).2 <= clip.max.x,
        clipped_rect(position, size, Some(clip)).3 <= clip.max.y,
        clipped_rect(position, size, Some(clip)).0 >= clipped_rect(position, size, None).0,
        clipped_rect(position, size, Some(clip)).1 >= clipped_rect(position, size, None).1,
        clipped_rect(position, size, Some(clip)).2 <= clipped_rect(position, size, None).2,
        clipped_rect(position, size, Some(clip)).3 <= clipped_rect(position, size, None).3,
{
}

/// One node of a widget that is being built: the bundle it will be spawned
/// with, and what to run on the node once it exists, in the order given.
pub struct WidgetBuilderEntity<TBundle, TRunner> {
    pub commands_runners: Vec<TRunner>,
    pub bundle: TBundle,
}

impl<TBundle, TRunner> WidgetBuilderEntity<TBundle, TRunner> {
    /// A node with `bundle` and nothing to run.
    pub fn new(bundle: TBundle) -> (entity: Self)
        ensures
            entity.bundle == bundle,
            entity.commands_runners@ == Seq::<TRunner>::empty(),
    {
        WidgetBuilderEntity { bundle, commands_runners: Vec::new() }
    }
}

impl<TBundle, TRunner> WidgetBuilderEntity<Option<TBundle>, TRunner> {
    /// Whether the bundle is still there. Spawning takes it.
    pub open spec fn staged(self) -> bool {
        self.bundle is Some
    }

    /// Adds `run_commands` to what runs on the node after it is spawned.
    pub fn add_runner(&mut self, run_commands: TRunner) -> (entity: &mut Self)
        ensures
            entity.commands_runners@ == old(self).commands_runners@.push(run_commands),
            entity.bundle == old(self).bundle,
            *final(self) == *final(entity),
    {
        self.commands_runners.push(run_commands);
        self
    }

    /// Replaces the bundle by what `extend` makes of it.
    pub fn edit_bundle<F: FnOnce(TBundle) -> TBundle>(&mut self, extend: F) -> (entity: &mut Self)
        requires
            old(self).staged(),
            extend.requires((old(self).bundle.unwrap(),)),
        ensures
            entity.staged(),
            extend.ensures((old(self).bundle.unwrap(),), entity.bundle.unwrap()),
            entity.commands_runners == old(self).commands_runners,
            *final(self) == *final(entity),
    {
        let bundle = self.bundle.take().unwrap();
        self.bundle = Some(extend(bundle));
        self
    }

    /// Takes the bundle out, to spawn the node with it.
    pub fn take_bundle(&mut self) -> (bundle: TBundle)
        requires
            old(self).staged(),
        ensures
            bundle == old(self).bundle.unwrap(),
            !final(self).staged(),
            final(self).commands_runners == old(self).commands_runners,
    {
        self.bundle.take().unwrap()
    }
}

/// What a widget attaches to one of its nodes besides the node's bundle.
#[derive(Clone, Copy, Debug, PartialEq, Eq, Structural)]
pub enum Marker {
    /// The node is the root of a frame.
    Frame,
    /// Dragging the node moves its frame.
    FrameGrabber,
    /// The node can be grabbed.
    Grab,
    /// The node belongs to the frame with this root.
    RootEntity(u64),
    /// The node is the track of a slider.
    SliderTrackNode,
    /// The node is the thumb of a slider.
    SliderThumbNode,
    /// The node belongs to the widget with this root.
    WidgetRoot(u64),
    /// The node takes part in pointer interaction, starting in this state.
    Interaction(Interaction),
}

/// A node that is made the child of another.
#[derive(Clone, Copy, Debug, PartialEq, Eq, Structural)]
pub struct Link {
    pub parent: u64,
    pub child: u64,
}

} // verus!
