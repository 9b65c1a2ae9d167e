//! Builds a tooltip widget: a root that may hold a content node.

use vstd::prelude::*;
use crate::utils::{Link, WidgetBuilderEntity};

verus! {

/// Builds a tooltip widget.
///
/// `TBundle` is the bundle of the root and `TRunner` what the host runs on
/// the root after spawning it.
pub struct TooltipWidgetBuilder<TBundle, TRunner> {
    pub root: WidgetBuilderEntity<Option<TBundle>, TRunner>,
    pub content_entity: Option<u64>,
}

/// The nodes of a spawned tooltip.
#[derive(Clone, Copy, Debug, PartialEq, Eq, Structural)]
pub struct TooltipWidgetEntities {
    pub root: u64,
    pub content: Option<u64>,
}

impl<TBundle, TRunner> TooltipWidgetBuilder<TBundle, TRunner> {
    /// Creates a new tooltip builder from the bundle of its root.
    pub fn new(root: TBundle) -> (builder: Self)
        ensures
            builder.root.bundle == Some(root),
            builder.root.commands_runners@.len() == 0,
            builder.content_entity is None,
    {
        TooltipWidgetBuilder { root: WidgetBuilderEntity::new(Some(root)), content_entity: None }
    }

    /// Allows to run commands on the root entity after it's spawned.
    pub fn root_commands(&mut self, run_commands: TRunner) -> (builder: &mut Self)
        ensures
            builder.root.commands_runners@ == old(self).root.commands_runners@.push(run_commands),
            builder.root.bundle == old(self).root.bundle,
            builder.content_entity == old(self).content_entity,
            *final(self) == *final(builder),
    {
        self.root.add_runner(run_commands);
        self
    }

    /// Allows to edit the root bundle before it is spawned.
    pub fn root_bundle<F: FnOnce(TBundle) -> TBundle>(&mut self, extend: F) -> (builder: &mut Self)
        requires
            old(self).root.staged(),
            extend.requires((old(self).root.bundle.unwrap(),)),
        ensures
            builder.root.staged(),
            extend.ensures((old(self).root.bundle.unwrap(),), builder.root.bundle.unwrap()),
            builder.root.commands_runners == old(self).root.commands_runners,
            builder.content_entity == old(self).content_entity,
            *final(self) == *final(builder),
    {
        self.root.edit_bundle(extend);
        self
    }

    /// Sets the tooltip content.
    /// The entity should be a valid UI node and is added to the tooltip's tree when the tooltip is spawned.
    pub fn with_content(&mut self, entity: u64) -> (builder: &mut Self)
        ensures
            builder.content_entity == Some(entity),
            builder.root == old(self).root,
            *final(self) == *final(builder),
    {
        self.content_entity = Some(entity);
        self
    }

    /// Hands out the bundle to spawn the tooltip's root with. The builder
    /// keeps what is to run on the root, and cannot spawn a second time.
    pub fn spawn(&mut self) -> (bundle: TBundle)
        requires
            old(self).root.staged(),
        ensures
            bundle == old(self).root.bundle.unwrap(),
            !final(self).root.staged(),
            final(self).root.commands_runners == old(self).root.commands_runners,
            final(self).content_entity == old(self).content_entity,
    {
        self.root.take_bundle()
    }

    /// The nodes of the tooltip, once the host has spawned its root.
    pub fn entities(&self, root: u64) -> (entities: TooltipWidgetEntities)
        ensures
            entities == (TooltipWidgetEntities { root, content: self.content_entity }),
    {
        TooltipWidgetEntities { root, content: self.content_entity }
    }
}

impl TooltipWidgetEntities {
    /// The children that the spawned root gets: the content, where there is one.
    pub open spec fn children(self) -> Seq<Link> {
        match self.content {
            Some(content) => seq![Link { parent: self.root, child: content }],
            None => seq![],
        }
    }

    /// The children that the spawned root gets.
    pub fn links(&self) -> (links: Vec<Link>)
        ensures
            links@ == self.children(),
    {
        let mut links: Vec<Link> = Vec::new();
        if let Some(content) = self.content {
            links.push(Link { parent: self.root, child: content });
        }
        assert(links@ =~= self.children());
        links
    }
}

} // verus!
