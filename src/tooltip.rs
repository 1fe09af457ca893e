use vstd::prelude::*;

use crate::geometry::Anchor;
use crate::placement::{cursor_placement, TooltipPlacement, CURSOR_OFFSET};
use crate::rich_text::{default_style, Justify, LineBreak, RichText, TextSection, TextStyle};

verus! {

/// The identity of an element of the host's UI tree.
#[derive(Clone, Copy, Debug, PartialEq, Eq, Hash, Structural)]
pub struct ElementId(pub u64);

impl ElementId {
    /// An identity that no live element has.
    pub fn placeholder() -> (r: ElementId)
        ensures
            r == ElementId(u64::MAX),
    {
        ElementId(u64::MAX)
    }
}

/// What a tooltip shows.
#[derive(Clone, Debug)]
pub enum TooltipContent {
    /// The shared primary tooltip, showing this text.
    Primary(RichText),
    /// An element of the application's own, shown as it is.
    Custom(ElementId),
}

/// Primary content of one section, `s` in the default style.
pub open spec fn is_plain_text(c: TooltipContent, s: String) -> bool {
    match c {
        TooltipContent::Primary(t) => t.sections@.len() == 1 && t.sections@[0].value == s
            && t.sections@[0].style == default_style() && t.justify == Justify::Left
            && t.linebreak_behavior == LineBreak::WordBoundary,
        TooltipContent::Custom(_) => false,
    }
}

impl TooltipContent {
    /// The primary tooltip showing `s` in the default style.
    pub fn text(s: String) -> (r: TooltipContent)
        ensures
            is_plain_text(r, s),
    {
        TooltipContent::Primary(RichText::from_section(s, TextStyle::default()))
    }

    /// The element that shows this content, given the primary tooltip's container.
    pub fn element(&self, primary_container: ElementId) -> (r: ElementId)
        ensures
            r == content_element(*self, primary_container),
    {
        match self {
            TooltipContent::Primary(_) => primary_container,
            TooltipContent::Custom(id) => *id,
        }
    }
}

/// Primary content of the one section `section`, left-aligned and wrapped at word
/// boundaries.
pub open spec fn is_single_section(c: TooltipContent, section: TextSection) -> bool {
    match c {
        TooltipContent::Primary(t) => t.sections@ == seq![section] && t.justify == Justify::Left
            && t.linebreak_behavior == LineBreak::WordBoundary,
        TooltipContent::Custom(_) => false,
    }
}

/// Primary content of one section with the characters `v` in the default style.
pub open spec fn is_text_of(c: TooltipContent, v: Seq<char>) -> bool {
    match c {
        TooltipContent::Primary(t) => t.sections@.len() == 1 && t.sections@[0].value@ == v
            && t.sections@[0].style == default_style() && t.justify == Justify::Left
            && t.linebreak_behavior == LineBreak::WordBoundary,
        TooltipContent::Custom(_) => false,
    }
}

impl From<String> for TooltipContent {
    /// The primary tooltip showing `value` in the default style.
    fn from(value: String) -> (r: TooltipContent)
        ensures
            is_plain_text(r, value),
    {
        TooltipContent::text(value)
    }
}

// A new `Vec` of sections equals no given value, only its elements do: the contract
// is the `ensures` above.
impl vstd::std_specs::convert::FromSpecImpl<String> for TooltipContent {
    open spec fn obeys_from_spec() -> bool {
        false
    }

    open spec fn from_spec(value: String) -> TooltipContent {
        choose|r: TooltipContent| is_plain_text(r, value)
    }
}

impl From<&str> for TooltipContent {
    /// The primary tooltip showing `value` in the default style.
    fn from(value: &str) -> (r: TooltipContent)
        ensures
            is_text_of(r, value@),
    {
        TooltipContent::text(<String as vstd::string::StringExecFns>::from_str(value))
    }
}

// A new `Vec` of sections equals no given value, only its elements do: the contract
// is the `ensures` above.
impl vstd::std_specs::convert::FromSpecImpl<&str> for TooltipContent {
    open spec fn obeys_from_spec() -> bool {
        false
    }

    open spec fn from_spec(value: &str) -> TooltipContent {
        choose|r: TooltipContent| is_text_of(r, value@)
    }
}

impl From<TextSection> for TooltipContent {
    /// The primary tooltip showing the one section `value`.
    fn from(value: TextSection) -> (r: TooltipContent)
        ensures
            is_single_section(r, value),
    {
        let ghost section = value;
        let TextSection { value: text, style } = value;
        let r = RichText::from_section(text, style);
        assert(r.sections@ =~= seq![section]);
        TooltipContent::Primary(r)
    }
}

// A new `Vec` of sections equals no given value, only its elements do: the contract
// is the `ensures` above.
impl vstd::std_specs::convert::FromSpecImpl<TextSection> for TooltipContent {
    open spec fn obeys_from_spec() -> bool {
        false
    }

    open spec fn from_spec(value: TextSection) -> TooltipContent {
        choose|r: TooltipContent| is_single_section(r, value)
    }
}

impl From<Vec<TextSection>> for TooltipContent {
    /// The primary tooltip showing `value`, left-aligned and wrapped at word boundaries.
    fn from(value: Vec<TextSection>) -> (r: TooltipContent) {
        TooltipContent::Primary(RichText::from_sections(value))
    }
}

impl vstd::std_specs::convert::FromSpecImpl<Vec<TextSection>> for TooltipContent {
    open spec fn obeys_from_spec() -> bool {
        true
    }

    open spec fn from_spec(value: Vec<TextSection>) -> TooltipContent {
        TooltipContent::Primary(
            RichText { sections: value, justify: Justify::Left, linebreak_behavior: LineBreak::WordBoundary },
        )
    }
}

impl From<RichText> for TooltipContent {
    /// The primary tooltip showing `value`.
    fn from(value: RichText) -> (r: TooltipContent) {
        TooltipContent::Primary(value)
    }
}

impl vstd::std_specs::convert::FromSpecImpl<RichText> for TooltipContent {
    open spec fn obeys_from_spec() -> bool {
        true
    }

    open spec fn from_spec(value: RichText) -> TooltipContent {
        TooltipContent::Primary(value)
    }
}

impl From<ElementId> for TooltipContent {
    /// The application's own element `value`.
    fn from(value: ElementId) -> (r: TooltipContent) {
        TooltipContent::Custom(value)
    }
}

impl vstd::std_specs::convert::FromSpecImpl<ElementId> for TooltipContent {
    open spec fn obeys_from_spec() -> bool {
        true
    }

    open spec fn from_spec(value: ElementId) -> TooltipContent {
        TooltipContent::Custom(value)
    }
}

pub open spec fn content_element(c: TooltipContent, primary_container: ElementId) -> ElementId {
    match c {
        TooltipContent::Primary(_) => primary_container,
        TooltipContent::Custom(id) => id,
    }
}

/// When a hovered element's tooltip appears.
#[derive(Clone, Copy, Debug, PartialEq, Eq, Structural)]
pub struct TooltipActivation {
    /// How long the element must be hovered first, in milliseconds.
    pub delay: u16,
    /// Whether moving the pointer starts the delay over.
    pub reset_delay_on_cursor_move: bool,
}

impl TooltipActivation {
    pub fn immediate() -> (r: TooltipActivation)
        ensures
            r == (TooltipActivation { delay: 0, reset_delay_on_cursor_move: false }),
    {
        TooltipActivation { delay: 0, reset_delay_on_cursor_move: false }
    }

    pub fn short_delay() -> (r: TooltipActivation)
        ensures
            r == (TooltipActivation { delay: 200, reset_delay_on_cursor_move: false }),
    {
        TooltipActivation { delay: 200, reset_delay_on_cursor_move: false }
    }

    pub fn medium_delay() -> (r: TooltipActivation)
        ensures
            r == (TooltipActivation { delay: 400, reset_delay_on_cursor_move: false }),
    {
        TooltipActivation { delay: 400, reset_delay_on_cursor_move: false }
    }

    pub fn long_delay() -> (r: TooltipActivation)
        ensures
            r == (TooltipActivation { delay: 600, reset_delay_on_cursor_move: false }),
    {
        TooltipActivation { delay: 600, reset_delay_on_cursor_move: false }
    }

    /// After the pointer rests a short while.
    pub fn short_idle() -> (r: TooltipActivation)
        ensures
            r == (TooltipActivation { delay: 200, reset_delay_on_cursor_move: true }),
    {
        TooltipActivation { delay: 200, reset_delay_on_cursor_move: true }
    }

    pub fn idle() -> (r: TooltipActivation)
        ensures
            r == (TooltipActivation { delay: 400, reset_delay_on_cursor_move: true }),
    {
        TooltipActivation { delay: 400, reset_delay_on_cursor_move: true }
    }

    pub fn long_idle() -> (r: TooltipActivation)
        ensures
            r == (TooltipActivation { delay: 600, reset_delay_on_cursor_move: true }),
    {
        TooltipActivation { delay: 600, reset_delay_on_cursor_move: true }
    }
}

impl From<u16> for TooltipActivation {
    /// A delay of `value` milliseconds that the pointer's moves do not restart.
    fn from(value: u16) -> (r: TooltipActivation) {
        TooltipActivation { delay: value, reset_delay_on_cursor_move: false }
    }
}

impl vstd::std_specs::convert::FromSpecImpl<u16> for TooltipActivation {
    open spec fn obeys_from_spec() -> bool {
        true
    }

    open spec fn from_spec(value: u16) -> TooltipActivation {
        TooltipActivation { delay: value, reset_delay_on_cursor_move: false }
    }
}

impl Default for TooltipActivation {
    fn default() -> (r: TooltipActivation)
        ensures
            r == (TooltipActivation { delay: 0, reset_delay_on_cursor_move: false }),
    {
        TooltipActivation::immediate()
    }
}

/// When an active tooltip is dismissed.
#[derive(Clone, Copy, Debug, PartialEq, Eq, Structural)]
pub struct TooltipDismissal {
    /// How far, in sub-pixel units, the pointer may move from where the tooltip
    /// activated; `None` for no limit.
    pub on_distance: Option<u32>,
    /// Whether pressing the element dismisses its tooltip.
    pub on_click: bool,
}

impl TooltipDismissal {
    pub fn none() -> (r: TooltipDismissal)
        ensures
            r == (TooltipDismissal { on_distance: None, on_click: false }),
    {
        TooltipDismissal { on_distance: None, on_click: false }
    }

    pub fn dismiss_on_click() -> (r: TooltipDismissal)
        ensures
            r == (TooltipDismissal { on_distance: None, on_click: true }),
    {
        TooltipDismissal { on_distance: None, on_click: true }
    }
}

impl Default for TooltipDismissal {
    fn default() -> (r: TooltipDismissal)
        ensures
            r == (TooltipDismissal { on_distance: None, on_click: false }),
    {
        TooltipDismissal::none()
    }
}

/// When the next tooltip skips its activation delay.
#[derive(Clone, Copy, Debug, PartialEq, Eq, Structural)]
pub struct TooltipTransfer {
    /// Transfer only to elements of this group; with `None`, only back to the same
    /// element.
    pub group: Option<i8>,
    /// Transfer only to elements of this layer or a higher one.
    pub layer: i8,
    /// How long after the pointer leaves the element a transfer may happen, in
    /// milliseconds.
    pub timeout: u16,
    /// Transfer only if this tooltip had become active.
    pub from_active: bool,
}

impl TooltipTransfer {
    pub fn none() -> (r: TooltipTransfer)
        ensures
            r == (TooltipTransfer { group: None, layer: 0, timeout: 0, from_active: true }),
    {
        TooltipTransfer { group: None, layer: 0, timeout: 0, from_active: true }
    }

    pub fn short() -> (r: TooltipTransfer)
        ensures
            r == (TooltipTransfer { group: Some(0), layer: 0, timeout: 100, from_active: true }),
    {
        TooltipTransfer { group: Some(0), layer: 0, timeout: 100, from_active: true }
    }
}

impl From<u16> for TooltipTransfer {
    /// Transfer within group 0 and layer 0 for `value` milliseconds after an active
    /// tooltip.
    fn from(value: u16) -> (r: TooltipTransfer) {
        TooltipTransfer { group: Some(0), layer: 0, timeout: value, from_active: true }
    }
}

impl vstd::std_specs::convert::FromSpecImpl<u16> for TooltipTransfer {
    open spec fn obeys_from_spec() -> bool {
        true
    }

    open spec fn from_spec(value: u16) -> TooltipTransfer {
        TooltipTransfer { group: Some(0), layer: 0, timeout: value, from_active: true }
    }
}

impl Default for TooltipTransfer {
    fn default() -> (r: TooltipTransfer)
        ensures
            r == (TooltipTransfer { group: None, layer: 0, timeout: 0, from_active: true }),
    {
        TooltipTransfer::none()
    }
}

/// A tooltip that an element shows on hover.
#[derive(Clone, Debug)]
pub struct Tooltip {
    pub content: TooltipContent,
    pub placement: TooltipPlacement,
    pub activation: TooltipActivation,
    pub dismissal: TooltipDismissal,
    pub transfer: TooltipTransfer,
}

impl Tooltip {
    /// A tooltip outside the element at `anchor`, shown at once, passed on to
    /// neighbours for a short while.
    pub fn fixed(anchor: Anchor, content: TooltipContent) -> (r: Tooltip)
        requires
            anchor.x > i16::MIN && anchor.y > i16::MIN,
        ensures
            r.content == content,
            r.placement.anchor_point == (Anchor { x: -anchor.x as i16, y: -anchor.y as i16 }),
            r.placement.target_point == crate::placement::TargetPoint::Fixed(anchor),
            r.placement.offset_x == crate::geometry::Val::Px(0),
            r.placement.offset_y == crate::geometry::Val::Px(0),
            r.placement.clamp_padding == crate::placement::no_padding(),
            r.activation == (TooltipActivation { delay: 0, reset_delay_on_cursor_move: false }),
            r.dismissal == (TooltipDismissal { on_distance: None, on_click: false }),
            r.transfer == (TooltipTransfer { group: Some(0), layer: 0, timeout: 100, from_active: true }),
    {
        Tooltip {
            content,
            placement: TooltipPlacement::from_anchor(anchor),
            activation: TooltipActivation::immediate(),
            dismissal: TooltipDismissal::none(),
            transfer: TooltipTransfer::short(),
        }
    }

    /// A tooltip beside the pointer once it rests, dismissed by a click.
    pub fn cursor(content: TooltipContent) -> (r: Tooltip)
        ensures
            r.content == content,
            r.placement == cursor_placement(Anchor { x: -500i16, y: 500i16 }, false, CURSOR_OFFSET),
            r.activation == (TooltipActivation { delay: 400, reset_delay_on_cursor_move: true }),
            r.dismissal == (TooltipDismissal { on_distance: None, on_click: true }),
            r.transfer == (TooltipTransfer { group: None, layer: 0, timeout: 0, from_active: true }),
    {
        Tooltip {
            content,
            placement: TooltipPlacement::cursor(),
            activation: TooltipActivation::idle(),
            dismissal: TooltipDismissal::dismiss_on_click(),
            transfer: TooltipTransfer::none(),
        }
    }

    /// A tooltip beside the pointer that follows it, shown at once.
    pub fn follow_cursor(content: TooltipContent) -> (r: Tooltip)
        ensures
            r.content == content,
            r.placement == cursor_placement(Anchor { x: -500i16, y: 500i16 }, true, CURSOR_OFFSET),
            r.activation == (TooltipActivation { delay: 0, reset_delay_on_cursor_move: false }),
            r.dismissal == (TooltipDismissal { on_distance: None, on_click: false }),
            r.transfer == (TooltipTransfer { group: None, layer: 0, timeout: 0, from_active: true }),
    {
        Tooltip {
            content,
            placement: TooltipPlacement::follow_cursor(),
            activation: TooltipActivation::immediate(),
            dismissal: TooltipDismissal::none(),
            transfer: TooltipTransfer::none(),
        }
    }

    /// Sets the justification of primary text; custom content is left as it is.
    pub fn with_justify(self, justify: Justify) -> (r: Tooltip)
        ensures
            r.placement == self.placement && r.activation == self.activation && r.dismissal
                == self.dismissal && r.transfer == self.transfer,
            match self.content {
                TooltipContent::Primary(t) => r.content == TooltipContent::Primary(
                    RichText { justify, ..t },
                ),
                TooltipContent::Custom(_) => r.content == self.content,
            },
    {
        let Tooltip { content, placement, activation, dismissal, transfer } = self;
        let content = match content {
            TooltipContent::Primary(t) => TooltipContent::Primary(t.with_justify(justify)),
            TooltipContent::Custom(id) => TooltipContent::Custom(id),
        };
        Tooltip { content, placement, activation, dismissal, transfer }
    }

    pub fn with_placement(self, placement: TooltipPlacement) -> (r: Tooltip)
        ensures
            r == (Tooltip { placement, ..self }),
    {
        Tooltip { placement, ..self }
    }

    pub fn with_activation(self, activation: TooltipActivation) -> (r: Tooltip)
        ensures
            r == (Tooltip { activation, ..self }),
    {
        Tooltip { activation, ..self }
    }

    pub fn with_dismissal(self, dismissal: TooltipDismissal) -> (r: Tooltip)
        ensures
            r == (Tooltip { dismissal, ..self }),
    {
        Tooltip { dismissal, ..self }
    }

    pub fn with_transfer(self, transfer: TooltipTransfer) -> (r: Tooltip)
        ensures
            r == (Tooltip { transfer, ..self }),
    {
        Tooltip { transfer, ..self }
    }
}

/// The phases of the frame in which the tooltip steps run.
#[derive(Clone, Copy, Debug, PartialEq, Eq, Hash, Structural)]
pub enum TooltipSystems {
    /// Deciding which tooltip is shown, before layout.
    Content,
    /// Placing the shown tooltip, after layout.
    Placement,
}

/// The start-up configuration of the tooltip system.
#[derive(Clone, Copy, Debug, PartialEq, Eq, Structural)]
pub struct TooltipPlugin {
    /// The primary tooltip's container, or the placeholder to have a default one made.
    pub container: ElementId,
    /// The primary tooltip's text element, or the placeholder to have a default one made.
    pub text: ElementId,
    /// Whether tooltips are shown at first.
    pub enabled: bool,
}

impl Default for TooltipPlugin {
    fn default() -> (r: TooltipPlugin)
        ensures
            r.container == ElementId(u64::MAX),
            r.text == ElementId(u64::MAX),
            r.enabled,
    {
        TooltipPlugin { container: ElementId::placeholder(), text: ElementId::placeholder(), enabled: true }
    }
}

/// The primary tooltip's elements, and whether tooltips are shown.
#[derive(Clone, Copy, Debug, PartialEq, Eq, Structural)]
pub struct TooltipSettings {
    pub container: ElementId,
    pub text: ElementId,
    pub enabled: bool,
}

/// Whether the tooltip steps run this frame: tooltips are enabled and the primary
/// container is not disabled.
pub fn tooltips_enabled(settings: &TooltipSettings, container_disabled: bool) -> (r: bool)
    ensures
        r == (settings.enabled && !container_disabled),
{
    settings.enabled && !container_disabled
}

} // verus!
