//! Widget logic for an entity-component UI: toggles, grabbing, sliders, frames,
//! tooltips and theming, stated over plain values and whole layout units.
//!
//! The host owns the nodes, the input and the layout. Once per frame it hands
//! each rule here the values it reads and writes back what the rule returns.

use vstd::prelude::*;

pub mod components;
pub mod layout;
pub mod style;
pub mod text;
pub mod theming;
pub mod utils;
pub mod widgets;

verus! {

/// A set of rules that the host can switch on as one.
#[derive(Clone, Copy, Debug, PartialEq, Eq, Structural)]
pub enum WidgetPlugin {
    GrabComponents,
    InteractionComponents,
    ToggleComponents,
    Theming,
    Frame,
    Tooltip,
    Slider,
    TextInput,
}

/// When in a frame a rule runs.
#[derive(Clone, Copy, Debug, PartialEq, Eq, Structural)]
pub enum Stage {
    /// Before the host's own update.
    PreUpdate,
    /// With the host's own update.
    Update,
    /// While the host extracts what it renders, after it has extracted the nodes.
    Extract,
}

/// A rule of this library.
#[derive(Clone, Copy, Debug, PartialEq, Eq, Structural)]
pub enum WidgetSystem {
    Grab,
    GrabbedMove,
    InteractionColor,
    InteractionImage,
    InteractionCursor,
    Toggle,
    UpdateColor,
    UpdateStyle,
    UpdateTextNodes,
    MoveFrame,
    PositionUpdate,
    PositionUpdateCursor,
    PositionUpdateNode,
    UpdateText,
    SliderThumbUpdate,
    SliderThumbMove,
    SliderTooltip,
    SliderTooltipUpdate,
    SliderTooltipTextUpdate,
    SliderTooltipVisibility,
    ExtractTextUinodes,
}

/// A rule and the stage it runs in.
#[derive(Clone, Copy, Debug, PartialEq, Eq, Structural)]
pub struct Scheduled {
    pub system: WidgetSystem,
    pub stage: Stage,
}

impl WidgetPlugin {
    /// The rules that the plugin switches on, in the order in which it adds them.
    pub open spec fn schedule(self) -> Seq<Scheduled> {
        match self {
            WidgetPlugin::GrabComponents => seq![
                Scheduled { system: WidgetSystem::Grab, stage: Stage::Update },
                Scheduled { system: WidgetSystem::GrabbedMove, stage: Stage::PreUpdate },
            ],
            WidgetPlugin::InteractionComponents => seq![
                Scheduled { system: WidgetSystem::InteractionColor, stage: Stage::Update },
                Scheduled { system: WidgetSystem::InteractionImage, stage: Stage::Update },
                Scheduled { system: WidgetSystem::InteractionCursor, stage: Stage::Update },
            ],
            WidgetPlugin::ToggleComponents => seq![Scheduled { system: WidgetSystem::Toggle, stage: Stage::PreUpdate }],
            WidgetPlugin::Theming => seq![
                Scheduled { system: WidgetSystem::UpdateColor, stage: Stage::PreUpdate },
                Scheduled { system: WidgetSystem::UpdateStyle, stage: Stage::PreUpdate },
                Scheduled { system: WidgetSystem::UpdateTextNodes, stage: Stage::PreUpdate },
            ],
            WidgetPlugin::Frame => seq![Scheduled { system: WidgetSystem::MoveFrame, stage: Stage::Update }],
            WidgetPlugin::Tooltip => seq![
                Scheduled { system: WidgetSystem::PositionUpdate, stage: Stage::PreUpdate },
                Scheduled { system: WidgetSystem::PositionUpdateCursor, stage: Stage::PreUpdate },
                Scheduled { system: WidgetSystem::PositionUpdateNode, stage: Stage::PreUpdate },
                Scheduled { system: WidgetSystem::UpdateText, stage: Stage::Update },
            ],
            WidgetPlugin::Slider => seq![
                Scheduled { system: WidgetSystem::SliderThumbUpdate, stage: Stage::Update },
                Scheduled { system: WidgetSystem::SliderThumbMove, stage: Stage::Update },
                Scheduled { system: WidgetSystem::SliderTooltip, stage: Stage::PreUpdate },
                Scheduled { system: WidgetSystem::SliderTooltipUpdate, stage: Stage::Update },
                Scheduled { system: WidgetSystem::SliderTooltipTextUpdate, stage: Stage::Update },
                Scheduled { system: WidgetSystem::SliderTooltipVisibility, stage: Stage::Update },
            ],
            WidgetPlugin::TextInput => seq![Scheduled { system: WidgetSystem::ExtractTextUinodes, stage: Stage::Extract }],
        }
    }

    /// The rules that the plugin switches on, in the order in which it adds them.
    pub fn build(self) -> (systems: Vec<Scheduled>)
        ensures
            systems@ == self.schedule(),
    {
        let systems = match self {
            WidgetPlugin::GrabComponents => vec![
                Scheduled { system: WidgetSystem::Grab, stage: Stage::Update },
                Scheduled { system: WidgetSystem::GrabbedMove, stage: Stage::PreUpdate },
            ],
            WidgetPlugin::InteractionComponents => vec![
                Scheduled { system: WidgetSystem::InteractionColor, stage: Stage::Update },
                Scheduled { system: WidgetSystem::InteractionImage, stage: Stage::Update },
                Scheduled { system: WidgetSystem::InteractionCursor, stage: Stage::Update },
            ],
            WidgetPlugin::ToggleComponents => vec![Scheduled { system: WidgetSystem::Toggle, stage: Stage::PreUpdate }],
            WidgetPlugin::Theming => vec![
                Scheduled { system: WidgetSystem::UpdateColor, stage: Stage::PreUpdate },
                Scheduled { system: WidgetSystem::UpdateStyle, stage: Stage::PreUpdate },
                Scheduled { system: WidgetSystem::UpdateTextNodes, stage: Stage::PreUpdate },
            ],
            WidgetPlugin::Frame => vec![Scheduled { system: WidgetSystem::MoveFrame, stage: Stage::Update }],
            WidgetPlugin::Tooltip => vec![
                Scheduled { system: WidgetSystem::PositionUpdate, stage: Stage::PreUpdate },
                Scheduled { system: WidgetSystem::PositionUpdateCursor, stage: Stage::PreUpdate },
                Scheduled { system: WidgetSystem::PositionUpdateNode, stage: Stage::PreUpdate },
                Scheduled { system: WidgetSystem::UpdateText, stage: Stage::Update },
            ],
            WidgetPlugin::Slider => vec![
                Scheduled { system: WidgetSystem::SliderThumbUpdate, stage: Stage::Update },
                Scheduled { system: WidgetSystem::SliderThumbMove, stage: Stage::Update },
                Scheduled { system: WidgetSystem::SliderTooltip, stage: Stage::PreUpdate },
                Scheduled { system: WidgetSystem::SliderTooltipUpdate, stage: Stage::Update },
                Scheduled { system: WidgetSystem::SliderTooltipTextUpdate, stage: Stage::Update },
                Scheduled { system: WidgetSystem::SliderTooltipVisibility, stage: Stage::Update },
            ],
            WidgetPlugin::TextInput => vec![
                Scheduled { system: WidgetSystem::ExtractTextUinodes, stage: Stage::Extract },
            ],
        };
        assert(systems@ =~= self.schedule());
        systems
    }
}

/// Plugin group used to add every plugin offered by this library at once.
/// Use this if you don't want to mix and match which plugins you need.
#[derive(Clone, Copy, Debug, PartialEq, Eq, Structural)]
pub struct AllWidgetsPlugins;

impl AllWidgetsPlugins {
    /// The plugins of the group, in the order in which they are added.
    pub open spec fn plugins() -> Seq<WidgetPlugin> {
        seq![
            WidgetPlugin::GrabComponents,
            WidgetPlugin::ToggleComponents,
            WidgetPlugin::Theming,
            WidgetPlugin::Frame,
            WidgetPlugin::Tooltip,
            WidgetPlugin::Slider,
        ]
    }

    /// The plugins of the group, in the order in which they are added.
    pub fn build(&self) -> (group: Vec<WidgetPlugin>)
        ensures
            group@ == AllWidgetsPlugins::plugins(),
    {
        let group = vec![
            WidgetPlugin::GrabComponents,
            WidgetPlugin::ToggleComponents,
            WidgetPlugin::Theming,
            WidgetPlugin::Frame,
            WidgetPlugin::Tooltip,
            WidgetPlugin::Slider,
        ];
        assert(group@ =~= AllWidgetsPlugins::plugins());
        group
    }
}

} // verus!
