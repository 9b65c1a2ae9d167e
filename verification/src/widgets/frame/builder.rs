//! Builds a frame widget: a root with a title bar that holds a title and a close button.

use vstd::prelude::*;
use crate::utils::{Link, Marker, WidgetBuilderEntity};

verus! {

/// Builds a frame widget.
///
/// `TNode` is the bundle of the root, `TButton` that of the title bar and of
/// the close button, `TText` that of the title, and `TRunner` what the host
/// runs on a node after spawning it.
pub struct FrameWidgetBuilder<TNode, TButton, TText, TRunner> {
    pub root: WidgetBuilderEntity<Option<TNode>, TRunner>,
    pub title_bar: WidgetBuilderEntity<Option<TButton>, TRunner>,
    pub title_text: WidgetBuilderEntity<Option<TText>, TRunner>,
    pub close_button: WidgetBuilderEntity<Option<TButton>, TRunner>,
    pub content_entity: Option<u64>,
}

/// The bundles of a frame's nodes, taken out of the builder.
pub struct FrameWidgetBundles<TNode, TButton, TText> {
    pub root: TNode,
    pub title_bar: TButton,
    pub title_text: TText,
    pub close_button: TButton,
}

/// The nodes of a spawned frame.
#[derive(Clone, Copy, Debug, PartialEq, Eq, Structural)]
pub struct FrameWidgetEntities {
    pub root: u64,
    pub title_bar: u64,
    pub title_text: u64,
    pub close_button: u64,
    pub content: Option<u64>,
}

/// The nodes that a frame is made of.
#[derive(Clone, Copy, Debug, PartialEq, Eq, Structural)]
pub enum FrameNode {
    Root,
    TitleBar,
    TitleText,
    CloseButton,
}

impl<TNode, TButton, TText, TRunner> FrameWidgetBuilder<TNode, TButton, TText, TRunner> {
    /// Whether every bundle is still there, so that the frame can be spawned.
    pub open spec fn staged(self) -> bool {
        self.root.staged() && self.title_bar.staged() && self.title_text.staged() && self.close_button.staged()
    }

    /// Creates a new frame builder from the bundles of its four nodes.
    pub fn new(root: TNode, title_bar: TButton, title_text: TText, close_button: TButton) -> (builder: Self)
        ensures
            builder.root.bundle == Some(root),
            builder.title_bar.bundle == Some(title_bar),
            builder.title_text.bundle == Some(title_text),
            builder.close_button.bundle == Some(close_button),
            builder.root.commands_runners@.len() == 0,
            builder.title_bar.commands_runners@.len() == 0,
            builder.title_text.commands_runners@.len() == 0,
            builder.close_button.commands_runners@.len() == 0,
            builder.content_entity is None,
    {
        FrameWidgetBuilder {
            root: WidgetBuilderEntity::new(Some(root)),
            title_bar: WidgetBuilderEntity::new(Some(title_bar)),
            title_text: WidgetBuilderEntity::new(Some(title_text)),
            close_button: WidgetBuilderEntity::new(Some(close_button)),
            content_entity: None,
        }
    }

    /// Allows to run commands on the root entity after it's spawned.
    pub fn root_commands(&mut self, run_commands: TRunner) -> (builder: &mut Self)
        ensures
            builder.root.commands_runners@ == old(self).root.commands_runners@.push(run_commands),
            builder.root.bundle == old(self).root.bundle,
            builder.title_bar == old(self).title_bar,
            builder.title_text == old(self).title_text,
            builder.close_button == old(self).close_button,
            builder.content_entity == old(self).content_entity,
            *final(self) == *final(builder),
    {
        self.root.add_runner(run_commands);
        self
    }

    /// Allows to edit the root bundle before it is spawned.
    pub fn root_bundle<F: FnOnce(TNode) -> TNode>(&mut self, extend: F) -> (builder: &mut Self)
        requires
            old(self).root.staged(),
            extend.requires((old(self).root.bundle.unwrap(),)),
        ensures
            builder.root.staged(),
            extend.ensures((old(self).root.bundle.unwrap(),), builder.root.bundle.unwrap()),
            builder.root.commands_runners == old(self).root.commands_runners,
            builder.title_bar == old(self).title_bar,
            builder.title_text == old(self).title_text,
            builder.close_button == old(self).close_button,
            builder.content_entity == old(self).content_entity,
            *final(self) == *final(builder),
    {
        self.root.edit_bundle(extend);
        self
    }

    /// Allows to run commands on the title bar entity after it's spawned.
    pub fn title_bar_commands(&mut self, run_commands: TRunner) -> (builder: &mut Self)
        ensures
            builder.title_bar.commands_runners@ == old(self).title_bar.commands_runners@.push(run_commands),
            builder.title_bar.bundle == old(self).title_bar.bundle,
            builder.root == old(self).root,
            builder.title_text == old(self).title_text,
            builder.close_button == old(self).close_button,
            builder.content_entity == old(self).content_entity,
            *final(self) == *final(builder),
    {
        self.title_bar.add_runner(run_commands);
        self
    }

    /// Allows to edit the title bar bundle before it is spawned.
    pub fn title_bar_bundle<F: FnOnce(TButton) -> TButton>(&mut self, extend: F) -> (builder: &mut Self)
        requires
            old(self).title_bar.staged(),
            extend.requires((old(self).title_bar.bundle.unwrap(),)),
        ensures
            builder.title_bar.staged(),
            extend.ensures((old(self).title_bar.bundle.unwrap(),), builder.title_bar.bundle.unwrap()),
            builder.title_bar.commands_runners == old(self).title_bar.commands_runners,
            builder.root == old(self).root,
            builder.title_text == old(self).title_text,
            builder.close_button == old(self).close_button,
            builder.content_entity == old(self).content_entity,
            *final(self) == *final(builder),
    {
        self.title_bar.edit_bundle(extend);
        self
    }

    /// Allows to run commands on the title text entity after it's spawned.
    pub fn title_text_commands(&mut self, run_commands: TRunner) -> (builder: &mut Self)
        ensures
            builder.title_text.commands_runners@ == old(self).title_text.commands_runners@.push(run_commands),
            builder.title_text.bundle == old(self).title_text.bundle,
            builder.root == old(self).root,
            builder.title_bar == old(self).title_bar,
            builder.close_button == old(self).close_button,
            builder.content_entity == old(self).content_entity,
            *final(self) == *final(builder),
    {
        self.title_text.add_runner(run_commands);
        self
    }

    /// Allows to edit the title text bundle before it is spawned.
    pub fn title_text_bundle<F: FnOnce(TText) -> TText>(&mut self, extend: F) -> (builder: &mut Self)
        requires
            old(self).title_text.staged(),
            extend.requires((old(self).title_text.bundle.unwrap(),)),
        ensures
            builder.title_text.staged(),
            extend.ensures((old(self).title_text.bundle.unwrap(),), builder.title_text.bundle.unwrap()),
            builder.title_text.commands_runners == old(self).title_text.commands_runners,
            builder.root == old(self).root,
            builder.title_bar == old(self).title_bar,
            builder.close_button == old(self).close_button,
            builder.content_entity == old(self).content_entity,
            *final(self) == *final(builder),
    {
        self.title_text.edit_bundle(extend);
        self
    }

    /// Allows to run commands on the close button entity after it's spawned.
    pub fn close_button_commands(&mut self, run_commands: TRunner) -> (builder: &mut Self)
        ensures
            builder.close_button.commands_runners@ == old(self).close_button.commands_runners@.push(run_commands),
            builder.close_button.bundle == old(self).close_button.bundle,
            builder.root == old(self).root,
            builder.title_bar == old(self).title_bar,
            builder.title_text == old(self).title_text,
            builder.content_entity == old(self).content_entity,
            *final(self) == *final(builder),
    {
        self.close_button.add_runner(run_commands);
        self
    }

    /// Allows to edit the close button bundle before it is spawned.
    pub fn close_button_bundle<F: FnOnce(TButton) -> TButton>(&mut self, extend: F) -> (builder: &mut Self)
        requires
            old(self).close_button.staged(),
            extend.requires((old(self).close_button.bundle.unwrap(),)),
        ensures
            builder.close_button.staged(),
            extend.ensures((old(self).close_button.bundle.unwrap(),), builder.close_button.bundle.unwrap()),
            builder.close_button.commands_runners == old(self).close_button.commands_runners,
            builder.root == old(self).root,
            builder.title_bar == old(self).title_bar,
            builder.title_text == old(self).title_text,
            builder.content_entity == old(self).content_entity,
            *final(self) == *final(builder),
    {
        self.close_button.edit_bundle(extend);
        self
    }

    /// Sets the frame content.
    /// The entity should be a valid UI node and is added to the frame's tree when the frame is spawned.
    pub fn with_content(&mut self, entity: u64) -> (builder: &mut Self)
        ensures
            builder.content_entity == Some(entity),
            builder.root == old(self).root,
            builder.title_bar == old(self).title_bar,
            builder.title_text == old(self).title_text,
            builder.close_button == old(self).close_button,
            *final(self) == *final(builder),
    {
        self.content_entity = Some(entity);
        self
    }

    /// Hands out the bundles to spawn the frame's nodes with. The builder
    /// keeps what is to run on each node, and cannot spawn a second time.
    pub fn spawn(&mut self) -> (bundles: FrameWidgetBundles<TNode, TButton, TText>)
        requires
            old(self).staged(),
        ensures
            bundles.root == old(self).root.bundle.unwrap(),
            bundles.title_bar == old(self).title_bar.bundle.unwrap(),
            bundles.title_text == old(self).title_text.bundle.unwrap(),
            bundles.close_button == old(self).close_button.bundle.unwrap(),
            !final(self).root.staged(),
            !final(self).title_bar.staged(),
            !final(self).title_text.staged(),
            !final(self).close_button.staged(),
            final(self).root.commands_runners == old(self).root.commands_runners,
            final(self).title_bar.commands_runners == old(self).title_bar.commands_runners,
            final(self).title_text.commands_runners == old(self).title_text.commands_runners,
            final(self).close_button.commands_runners == old(self).close_button.commands_runners,
            final(self).content_entity == old(self).content_entity,
    {
        let root = self.root.take_bundle();
        let title_bar = self.title_bar.take_bundle();
        let title_text = self.title_text.take_bundle();
        let close_button = self.close_button.take_bundle();
        FrameWidgetBundles { root, title_bar, title_text, close_button }
    }

    /// The nodes of the frame, once the host has spawned them.
    pub fn entities(&self, root: u64, title_bar: u64, title_text: u64, close_button: u64) -> (entities:
        FrameWidgetEntities)
        ensures
            entities == (FrameWidgetEntities {
                root,
                title_bar,
                title_text,
                close_button,
                content: self.content_entity,
            }),
    {
        FrameWidgetEntities { root, title_bar, title_text, close_button, content: self.content_entity }
    }
}

/// What a frame attaches to `node`, in this order, before the node's runners run.
pub open spec fn frame_markers(node: FrameNode, root: u64) -> Seq<Marker> {
    match node {
        FrameNode::Root => seq![Marker::Frame],
        FrameNode::TitleBar => seq![Marker::RootEntity(root), Marker::Grab, Marker::FrameGrabber],
        FrameNode::TitleText => seq![Marker::RootEntity(root)],
        FrameNode::CloseButton => seq![Marker::RootEntity(root)],
    }
}

impl FrameNode {
    /// What a frame whose root is `root` attaches to this node, in this
    /// order, before the node's runners run.
    pub fn markers(self, root: u64) -> (markers: Vec<Marker>)
        ensures
            markers@ == frame_markers(self, root),
    {
        let markers = match self {
            FrameNode::Root => vec![Marker::Frame],
            FrameNode::TitleBar => vec![Marker::RootEntity(root), Marker::Grab, Marker::FrameGrabber],
            FrameNode::TitleText => vec![Marker::RootEntity(root)],
            FrameNode::CloseButton => vec![Marker::RootEntity(root)],
        };
        assert(markers@ =~= frame_markers(self, root));
        markers
    }
}

impl FrameWidgetEntities {
    /// The children that the spawned nodes get, in this order: the root gets
    /// the content, where there is one, and the title bar; the title bar gets
    /// the title and the close button.
    pub open spec fn children(self) -> Seq<Link> {
        let bar = seq![
            Link { parent: self.root, child: self.title_bar },
            Link { parent: self.title_bar, child: self.title_text },
            Link { parent: self.title_bar, child: self.close_button },
        ];
        match self.content {
            Some(content) => seq![Link { parent: self.root, child: content }] + bar,
            None => bar,
        }
    }

    /// The children that the spawned nodes get, in the order in which they are added.
    pub fn links(&self) -> (links: Vec<Link>)
        ensures
            links@ == self.children(),
    {
        let mut links: Vec<Link> = Vec::new();
        if let Some(content) = self.content {
            links.push(Link { parent: self.root, child: content });
        }
        links.push(Link { parent: self.root, child: self.title_bar });
        links.push(Link { parent: self.title_bar, child: self.title_text });
        links.push(Link { parent: self.title_bar, child: self.close_button });
        assert(links@ =~= self.children());
        links
    }
}

} // verus!
