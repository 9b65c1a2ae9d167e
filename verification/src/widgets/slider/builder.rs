//! Builds a slider widget: a root with a track and a thumb.

use vstd::prelude::*;
use crate::layout::Interaction;
use crate::utils::{Link, Marker, WidgetBuilderEntity};

verus! {

/// Builds a slider widget.
///
/// `TRoot` is the bundle of the root, `TNode` that of the track and of the
/// thumb, and `TRunner` what the host runs on a node after spawning it.
pub struct SliderWidgetBuilder<TRoot, TNode, TRunner> {
    pub root: WidgetBuilderEntity<Option<TRoot>, TRunner>,
    pub track: WidgetBuilderEntity<Option<TNode>, TRunner>,
    pub thumb: WidgetBuilderEntity<Option<TNode>, TRunner>,
}

/// The bundles of a slider's nodes, taken out of the builder.
pub struct SliderWidgetBundles<TRoot, TNode> {
    pub root: TRoot,
    pub track: TNode,
    pub thumb: TNode,
}

/// The nodes of a spawned slider.
#[derive(Clone, Copy, Debug, PartialEq, Eq, Structural)]
pub struct SliderWidgetEntities {
    pub root: u64,
    pub track: u64,
    pub thumb: u64,
}

/// The nodes that a slider is made of.
#[derive(Clone, Copy, Debug, PartialEq, Eq, Structural)]
pub enum SliderNode {
    Root,
    Track,
    Thumb,
}

impl<TRoot, TNode, TRunner> SliderWidgetBuilder<TRoot, TNode, TRunner> {
    /// Whether every bundle is still there, so that the slider can be spawned.
    pub open spec fn staged(self) -> bool {
        self.root.staged() && self.track.staged() && self.thumb.staged()
    }

    /// Creates a new slider builder from the bundles of its three nodes.
    pub fn new(root: TRoot, track: TNode, thumb: TNode) -> (builder: Self)
        ensures
            builder.root.bundle == Some(root),
            builder.track.bundle == Some(track),
            builder.thumb.bundle == Some(thumb),
            builder.root.commands_runners@.len() == 0,
            builder.track.commands_runners@.len() == 0,
            builder.thumb.commands_runners@.len() == 0,
    {
        SliderWidgetBuilder {
            root: WidgetBuilderEntity::new(Some(root)),
            track: WidgetBuilderEntity::new(Some(track)),
            thumb: WidgetBuilderEntity::new(Some(thumb)),
        }
    }

    /// Allows to run commands on the root entity after it's spawned.
    pub fn root_commands(&mut self, run_commands: TRunner) -> (builder: &mut Self)
        ensures
            builder.root.commands_runners@ == old(self).root.commands_runners@.push(run_commands),
            builder.root.bundle == old(self).root.bundle,
            builder.track == old(self).track,
            builder.thumb == old(self).thumb,
            *final(self) == *final(builder),
    {
        self.root.add_runner(run_commands);
        self
    }

    /// Allows you to edit the root bundle before it is spawned.
    pub fn root_bundle<F: FnOnce(TRoot) -> TRoot>(&mut self, extend: F) -> (builder: &mut Self)
        requires
            old(self).root.staged(),
            extend.requires((old(self).root.bundle.unwrap(),)),
        ensures
            builder.root.staged(),
            extend.ensures((old(self).root.bundle.unwrap(),), builder.root.bundle.unwrap()),
            builder.root.commands_runners == old(self).root.commands_runners,
            builder.track == old(self).track,
            builder.thumb == old(self).thumb,
            *final(self) == *final(builder),
    {
        self.root.edit_bundle(extend);
        self
    }

    /// Allows you to run commands on the track entity after it's spawned.
    pub fn track_commands(&mut self, run_commands: TRunner) -> (builder: &mut Self)
        ensures
            builder.track.commands_runners@ == old(self).track.commands_runners@.push(run_commands),
            builder.track.bundle == old(self).track.bundle,
            builder.root == old(self).root,
            builder.thumb == old(self).thumb,
            *final(self) == *final(builder),
    {
        self.track.add_runner(run_commands);
        self
    }

    /// Allows editing the track bundle before it is spawned.
    pub fn track_bundle<F: FnOnce(TNode) -> TNode>(&mut self, extend: F) -> (builder: &mut Self)
        requires
            old(self).track.staged(),
            extend.requires((old(self).track.bundle.unwrap(),)),
        ensures
            builder.track.staged(),
            extend.ensures((old(self).track.bundle.unwrap(),), builder.track.bundle.unwrap()),
            builder.track.commands_runners == old(self).track.commands_runners,
            builder.root == old(self).root,
            builder.thumb == old(self).thumb,
            *final(self) == *final(builder),
    {
        self.track.edit_bundle(extend);
        self
    }

    /// Allows you to run commands on the thumb entity after it's spawned.
    pub fn thumb_commands(&mut self, run_commands: TRunner) -> (builder: &mut Self)
        ensures
            builder.thumb.commands_runners@ == old(self).thumb.commands_runners@.push(run_commands),
            builder.thumb.bundle == old(self).thumb.bundle,
            builder.root == old(self).root,
            builder.track == old(self).track,
            *final(self) == *final(builder),
    {
        self.thumb.add_runner(run_commands);
        self
    }

    /// Allows you to edit the thumb bundle before it is spawned.
    pub fn thumb_bundle<F: FnOnce(TNode) -> TNode>(&mut self, extend: F) -> (builder: &mut Self)
        requires
            old(self).thumb.staged(),
            extend.requires((old(self).thumb.bundle.unwrap(),)),
        ensures
            builder.thumb.staged(),
            extend.ensures((old(self).thumb.bundle.unwrap(),), builder.thumb.bundle.unwrap()),
            builder.thumb.commands_runners == old(self).thumb.commands_runners,
            builder.root == old(self).root,
            builder.track == old(self).track,
            *final(self) == *final(builder),
    {
        self.thumb.edit_bundle(extend);
        self
    }

    /// Hands out the bundles to spawn the slider's nodes with. The builder
    /// keeps what is to run on each node, and cannot spawn a second time.
    pub fn spawn(&mut self) -> (bundles: SliderWidgetBundles<TRoot, TNode>)
        requires
            old(self).staged(),
        ensures
            bundles.root == old(self).root.bundle.unwrap(),
            bundles.track == old(self).track.bundle.unwrap(),
            bundles.thumb == old(self).thumb.bundle.unwrap(),
            !final(self).root.staged(),
            !final(self).track.staged(),
            !final(self).thumb.staged(),
            final(self).root.commands_runners == old(self).root.commands_runners,
            final(self).track.commands_runners == old(self).track.commands_runners,
            final(self).thumb.commands_runners == old(self).thumb.commands_runners,
    {
        let root = self.root.take_bundle();
        let track = self.track.take_bundle();
        let thumb = self.thumb.take_bundle();
        SliderWidgetBundles { root, track, thumb }
    }
}

/// What a slider attaches to `node`, in this order, after the node's runners have run.
pub open spec fn slider_markers(node: SliderNode, root: u64) -> Seq<Marker> {
    match node {
        SliderNode::Root => seq![],
        SliderNode::Track => seq![Marker::SliderTrackNode, Marker::WidgetRoot(root)],
        SliderNode::Thumb => seq![
            Marker::Interaction(Interaction::Idle),
            Marker::Grab,
            Marker::SliderThumbNode,
            Marker::WidgetRoot(root),
        ],
    }
}

impl SliderNode {
    /// What a slider whose root is `root` attaches to this node, in this
    /// order, after the node's runners have run.
    pub fn markers(self, root: u64) -> (markers: Vec<Marker>)
        ensures
            markers@ == slider_markers(self, root),
    {
        let markers = match self {
            SliderNode::Root => Vec::new(),
            SliderNode::Track => vec![Marker::SliderTrackNode, Marker::WidgetRoot(root)],
            SliderNode::Thumb => vec![
                Marker::Interaction(Interaction::Idle),
                Marker::Grab,
                Marker::SliderThumbNode,
                Marker::WidgetRoot(root),
            ],
        };
        assert(markers@ =~= slider_markers(self, root));
        markers
    }
}

impl SliderWidgetEntities {
    /// The children that the spawned nodes get, in this order: the root gets
    /// the track and then the thumb.
    pub open spec fn children(self) -> Seq<Link> {
        seq![Link { parent: self.root, child: self.track }, Link { parent: self.root, child: self.thumb }]
    }

    /// The children that the spawned nodes get, in the order in which they are added.
    pub fn links(&self) -> (links: Vec<Link>)
        ensures
            links@ == self.children(),
    {
        let links = vec![
            Link { parent: self.root, child: self.track },
            Link { parent: self.root, child: self.thumb },
        ];
        assert(links@ =~= self.children());
        links
    }
}

} // verus!
