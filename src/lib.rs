//! Tooltips for a retained-mode UI: a per-frame interaction state machine that decides
//! which tooltip is shown and when, and a placement engine that decides where.
//!
//! All lengths are integers in sub-pixel units (see [`geometry::UNITS_PER_PX`]).

pub mod context;
pub mod geometry;
pub mod placement;
pub mod rich_text;
pub mod tooltip;

pub use context::{
    find_cursor, show_tooltip, update_tooltip_context, CameraWindow, Interaction, StackEntry,
    TooltipContext, TooltipEvents, TooltipState,
};
pub use geometry::{Anchor, Point, UiRect, Val, UNITS_PER_PX};
pub use placement::{
    place_tooltip, PlacementFrame, TargetPoint, TooltipPlacement, TooltipPosition,
};
pub use rich_text::{
    plan_text_spans, Justify, LineBreak, Rgba, RichText, RichTextSystems, SpanAction, SpanPlan,
    TextSection, TextStyle,
};
pub use tooltip::{
    tooltips_enabled, ElementId, Tooltip, TooltipActivation, TooltipContent, TooltipDismissal,
    TooltipPlugin, TooltipSettings, TooltipSystems, TooltipTransfer,
};
