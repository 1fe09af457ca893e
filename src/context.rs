use vstd::prelude::*;

use crate::geometry::Point;
use crate::placement::TargetPoint;
use crate::rich_text::{Justify, LineBreak, RichText};
use crate::tooltip::{content_element, ElementId, Tooltip, TooltipContent};

verus! {

/// The state of the tooltip system.
#[derive(Clone, Copy, Debug, PartialEq, Eq, Structural)]
pub enum TooltipState {
    /// No tooltip is shown; the target is at most kept for a transfer.
    Inactive,
    /// The target is hovered and its activation delay is counting down.
    Delayed,
    /// The target's tooltip is shown.
    Active,
    /// The target is still interacted with, but its tooltip stays hidden.
    Dismissed,
}

/// How the pointer interacts with an element this frame.
#[derive(Clone, Copy, Debug, PartialEq, Eq, Structural)]
pub enum Interaction {
    Pressed,
    Hovered,
    /// Neither pressed nor hovered.
    Idle,
}

/// One element of the host's interaction stack.
#[derive(Clone, Debug)]
pub struct StackEntry {
    pub element: ElementId,
    pub interaction: Interaction,
    pub tooltip: Option<Tooltip>,
}

/// A camera of the host, as pointer tracking sees it.
#[derive(Clone, Copy, Debug, PartialEq, Eq, Structural)]
pub struct CameraWindow {
    /// Whether the camera renders to a window that exists.
    pub window_target: bool,
    /// Whether that window has the focus.
    pub focused: bool,
    /// The pointer's position in that window, if it is over it.
    pub cursor: Option<Point>,
}

/// The record that the tooltip system keeps from frame to frame.
#[derive(Clone, Debug)]
pub struct TooltipContext {
    pub state: TooltipState,
    /// The element interacted with; meaningful only when the state is not `Inactive`,
    /// or as the element last left, for a transfer back to it.
    pub target: ElementId,
    /// Milliseconds left of the activation delay (`Delayed`) or of the transfer window
    /// (`Inactive`).
    pub timer: u16,
    /// The pointer's position, or where the tooltip activated.
    pub cursor_pos: Point,
    /// The governing tooltip, as it was taken from its element.
    pub tooltip: Tooltip,
}

/// What a frame asks of the host.
#[derive(Clone, Copy, Debug, PartialEq, Eq, Structural)]
pub struct TooltipEvents {
    /// Hide this element: the content element of the tooltip governing so far. Raised
    /// when the tooltip activates or deactivates, or its target or content element
    /// changes.
    pub hide: Option<ElementId>,
    /// Show the governing tooltip's content (see [`show_tooltip`]).
    pub show: bool,
    /// The shown tooltip's element is still hovered and its content was taken anew,
    /// shown by the same element: bring the displayed content up to date, without
    /// showing or hiding anything.
    pub refresh: bool,
}

pub open spec fn follows_cursor(t: Tooltip) -> bool {
    t.placement.target_point == (TargetPoint::Cursor { follow: true })
}

pub open spec fn dist_sq(a: Point, b: Point) -> int {
    (a.x - b.x) * (a.x - b.x) + (a.y - b.y) * (a.y - b.y)
}

/// Whether the pointer has moved too far from `anchor` for tooltip `t`.
pub open spec fn too_far(t: Tooltip, anchor: Point, p: Point) -> bool {
    match t.dismissal.on_distance {
        Some(d) => dist_sq(anchor, p) > d * d,
        None => false,
    }
}

/// Pointer tracking, given the pointer's position if a focused window has it.
pub open spec fn track_cursor(c: TooltipContext, cursor: Option<Point>) -> TooltipContext {
    match cursor {
        None => c,
        Some(p) => {
            let timer = if c.cursor_pos != p && c.state == TooltipState::Delayed
                && c.tooltip.activation.reset_delay_on_cursor_move {
                c.tooltip.activation.delay
            } else {
                c.timer
            };
            let state = if c.state == TooltipState::Active && too_far(c.tooltip, c.cursor_pos, p) {
                TooltipState::Dismissed
            } else {
                c.state
            };
            let cursor_pos = if state != TooltipState::Active || follows_cursor(c.tooltip) {
                p
            } else {
                c.cursor_pos
            };
            TooltipContext { state, timer, cursor_pos, ..c }
        },
    }
}

/// The timer after `delta` milliseconds, stopping at zero.
pub open spec fn ticked(timer: u16, delta: u64) -> u16 {
    if delta >= timer { 0 } else { (timer - delta) as u16 }
}

/// The timer's tick: it runs while `Inactive` or `Delayed`, and a delay that runs out
/// activates the tooltip.
pub open spec fn tick(c: TooltipContext, delta: u64) -> TooltipContext {
    if c.state == TooltipState::Inactive || c.state == TooltipState::Delayed {
        let timer = ticked(c.timer, delta);
        let state = if c.state == TooltipState::Delayed && timer == 0 {
            TooltipState::Active
        } else {
            c.state
        };
        TooltipContext { state, timer, ..c }
    } else {
        c
    }
}

/// An element that takes part in the scan: it has a tooltip and is hovered or pressed.
pub open spec fn qualifies(e: StackEntry) -> bool {
    e.tooltip is Some && e.interaction != Interaction::Idle
}

/// The index of the topmost qualifying element (the stack is bottom to top).
pub open spec fn top_hit(s: Seq<StackEntry>) -> Option<int>
    decreases s.len(),
{
    if s.len() == 0 {
        None
    } else if qualifies(s.last()) {
        Some(s.len() - 1)
    } else {
        top_hit(s.drop_last())
    }
}

/// The topmost qualifying element is an element of the stack, and qualifies.
pub proof fn lemma_top_hit(s: Seq<StackEntry>)
    ensures
        match top_hit(s) {
            Some(k) => 0 <= k < s.len() && qualifies(s[k]),
            None => forall|j: int| 0 <= j < s.len() ==> !qualifies(#[trigger] s[j]),
        },
    decreases s.len(),
{
    if s.len() > 0 && !qualifies(s.last()) {
        lemma_top_hit(s.drop_last());
        assert forall|j: int| 0 <= j < s.len() - 1 implies s.drop_last()[j] == s[j] by {}
    }
}

pub open spec fn same_group(a: Option<i8>, b: Option<i8>) -> bool {
    match (a, b) {
        (Some(x), Some(y)) => x == y,
        _ => false,
    }
}

/// Whether element `e` with tooltip `t`, newly found, skips its activation delay: its
/// delay is zero, or a transfer window is open from the tooltip of `c` into a layer at
/// least as high, within one group or back to the same element.
pub open spec fn skips_delay(c: TooltipContext, e: ElementId, t: Tooltip) -> bool {
    t.activation.delay == 0 || (c.state == TooltipState::Inactive && c.timer > 0
        && t.transfer.layer >= c.tooltip.transfer.layer && (same_group(
        c.tooltip.transfer.group,
        t.transfer.group,
    ) || c.target == e))
}

/// Whether element `e` is pressed and its tooltip `t` is dismissed by a click.
pub open spec fn click_dismisses(e: StackEntry, t: Tooltip) -> bool {
    e.interaction == Interaction::Pressed && t.dismissal.on_click
}

/// Whether the scan finds element `e` again while it is still the target.
pub open spec fn is_same_target(c: TooltipContext, e: StackEntry) -> bool {
    c.state != TooltipState::Inactive && c.target == e.element
}

/// The context after the scan finds qualifying element `e` with tooltip `t`.
pub open spec fn on_hit(c: TooltipContext, e: StackEntry, t: Tooltip) -> TooltipContext {
    if click_dismisses(e, t) {
        TooltipContext {
            state: TooltipState::Dismissed,
            target: e.element,
            tooltip: Tooltip { transfer: t.transfer, ..c.tooltip },
            ..c
        }
    } else if is_same_target(c, e) {
        TooltipContext { tooltip: t, ..c }
    } else {
        TooltipContext {
            state: if skips_delay(c, e.element, t) {
                TooltipState::Active
            } else {
                TooltipState::Delayed
            },
            target: e.element,
            timer: t.activation.delay,
            tooltip: t,
            ..c
        }
    }
}

/// The context when no element qualifies: a tooltip that was governing leaves a
/// transfer window open, unless it asks to be active for that and was not.
pub open spec fn on_miss(c: TooltipContext) -> TooltipContext {
    if c.state == TooltipState::Inactive {
        c
    } else {
        TooltipContext {
            state: TooltipState::Inactive,
            timer: if c.state == TooltipState::Active || !c.tooltip.transfer.from_active {
                c.tooltip.transfer.timeout
            } else {
                0
            },
            ..c
        }
    }
}

/// The scan of the interaction stack, from the top.
pub open spec fn scan(c: TooltipContext, s: Seq<StackEntry>) -> TooltipContext {
    match top_hit(s) {
        Some(i) => on_hit(c, s[i], s[i].tooltip.unwrap()),
        None => on_miss(c),
    }
}

/// Whether the scan finds the current target again, not to be dismissed by a click.
pub open spec fn refreshes(c: TooltipContext, s: Seq<StackEntry>) -> bool {
    match top_hit(s) {
        Some(i) => !click_dismisses(s[i], s[i].tooltip.unwrap()) && is_same_target(c, s[i]),
        None => false,
    }
}

/// One frame: the new context and what the host must do.
pub open spec fn frame(
    c: TooltipContext,
    cursor: Option<Point>,
    delta: u64,
    s: Seq<StackEntry>,
    primary_container: ElementId,
) -> (TooltipContext, TooltipEvents) {
    let c1 = tick(track_cursor(c, cursor), delta);
    let n = scan(c1, s);
    let was_active = c.state == TooltipState::Active;
    let is_active = n.state == TooltipState::Active;
    let changed = was_active != is_active || c.target != n.target || content_element(
        c.tooltip.content,
        primary_container,
    ) != content_element(n.tooltip.content, primary_container);
    (
        n,
        TooltipEvents {
            hide: if changed {
                Some(content_element(c.tooltip.content, primary_container))
            } else {
                None
            },
            show: changed && is_active,
            refresh: !changed && is_active && refreshes(c1, s),
        },
    )
}

fn sq_diff(a: i32, b: i32) -> (r: i128)
    ensures
        r == (a - b) * (a - b),
        0 <= r < 0x1_0000_0000_0000_0000,
{
    let d = a as i128 - b as i128;
    assert(0 <= d * d < 0x1_0000_0000_0000_0000) by (nonlinear_arith)
        requires
            -0x1_0000_0000 < d < 0x1_0000_0000,
    ;
    d * d
}

impl TooltipContext {
    /// The record at start-up: inactive, no target, no tooltip of its own.
    pub fn new() -> (r: TooltipContext)
        ensures
            r.state == TooltipState::Inactive,
            r.target == ElementId(u64::MAX),
            r.timer == 0,
            r.cursor_pos == (Point { x: 0, y: 0 }),
            r.tooltip.content == TooltipContent::Custom(ElementId(u64::MAX)),
    {
        TooltipContext {
            state: TooltipState::Inactive,
            target: ElementId::placeholder(),
            timer: 0,
            cursor_pos: Point::zero(),
            tooltip: Tooltip::cursor(TooltipContent::Custom(ElementId::placeholder())),
        }
    }
}

impl Default for TooltipContext {
    fn default() -> (r: TooltipContext)
        ensures
            r.state == TooltipState::Inactive,
            r.target == ElementId(u64::MAX),
            r.timer == 0,
            r.cursor_pos == (Point { x: 0, y: 0 }),
            r.tooltip.content == TooltipContent::Custom(ElementId(u64::MAX)),
    {
        TooltipContext::new()
    }
}

/// The pointer position that tracking uses: that of the first camera that renders to
/// a focused window with the pointer over it.
pub open spec fn first_cursor(w: Seq<CameraWindow>) -> Option<Point>
    decreases w.len(),
{
    if w.len() == 0 {
        None
    } else if w[0].window_target && w[0].focused && w[0].cursor is Some {
        w[0].cursor
    } else {
        first_cursor(w.drop_first())
    }
}

pub fn find_cursor(windows: &Vec<CameraWindow>) -> (r: Option<Point>)
    ensures
        r == first_cursor(windows@),
{
    let mut i: usize = 0;
    assert(windows@.subrange(0, windows@.len() as int) =~= windows@);
    while i < windows.len()
        invariant
            i <= windows@.len(),
            first_cursor(windows@) == first_cursor(windows@.subrange(i as int, windows@.len() as int)),
        decreases windows@.len() - i,
    {
        let w = windows[i];
        assert(windows@.subrange(i as int, windows@.len() as int).drop_first() =~= windows@.subrange(
            i + 1,
            windows@.len() as int,
        ));
        if w.window_target && w.focused && w.cursor.is_some() {
            return w.cursor;
        }
        i = i + 1;
    }
    None
}

/// Runs one frame of the tooltip system on `ctx`: pointer tracking, the timer, the scan
/// of the interaction stack `stack` (bottom to top), and what the host must show or
/// hide. `cursor` is the pointer's position (see [`find_cursor`]) and `delta_ms` the
/// time since the last frame.
pub fn update_tooltip_context(
    ctx: &mut TooltipContext,
    cursor: Option<Point>,
    delta_ms: u64,
    stack: Vec<StackEntry>,
    primary_container: ElementId,
) -> (r: TooltipEvents)
    ensures
        (*final(ctx), r) == frame(*old(ctx), cursor, delta_ms, stack@, primary_container),
{
    let old_active = ctx.state == TooltipState::Active;
    let old_target = ctx.target;
    let old_entity = ctx.tooltip.content.element(primary_container);

    // Pointer tracking.
    if let Some(p) = cursor {
        if ctx.cursor_pos != p && ctx.state == TooltipState::Delayed
            && ctx.tooltip.activation.reset_delay_on_cursor_move {
            ctx.timer = ctx.tooltip.activation.delay;
        }
        if ctx.state == TooltipState::Active {
            if let Some(d) = ctx.tooltip.dismissal.on_distance {
                assert(0 <= d * d <= 0xffff_ffff * 0xffff_ffff) by (nonlinear_arith)
                    requires
                        0 <= d <= 0xffff_ffff,
                ;
                let dist = sq_diff(ctx.cursor_pos.x, p.x) + sq_diff(ctx.cursor_pos.y, p.y);
                let dd = d as i128 * d as i128;
                if dist > dd {
                    ctx.state = TooltipState::Dismissed;
                }
            }
        }
        let follow = match ctx.tooltip.placement.target_point {
            TargetPoint::Cursor { follow } => follow,
            TargetPoint::Fixed(_) => false,
        };
        if ctx.state != TooltipState::Active || follow {
            ctx.cursor_pos = p;
        }
    }
    // The timer.

    if ctx.state == TooltipState::Inactive || ctx.state == TooltipState::Delayed {
        ctx.timer = if delta_ms >= ctx.timer as u64 {
            0
        } else {
            ctx.timer - delta_ms as u16
        };
        if ctx.state == TooltipState::Delayed && ctx.timer == 0 {
            ctx.state = TooltipState::Active;
        }
    }
    let ghost c1 = *ctx;

    // The scan, from the top of the stack.
    let ghost s0 = stack@;
    let mut stack = stack;
    let mut i: usize = stack.len();
    let mut hit = false;
    assert(stack@.subrange(0, stack@.len() as int) =~= stack@);
    while i > 0
        invariant_except_break
            !hit,
        invariant
            i <= stack@.len(),
            top_hit(stack@) == top_hit(stack@.subrange(0, i as int)),
        ensures
            hit ==> 0 < i <= stack@.len() && top_hit(stack@) == Some(i - 1),
            !hit ==> top_hit(stack@) == None::<int>,
        decreases i,
    {
        assert(stack@.subrange(0, i as int).drop_last() =~= stack@.subrange(0, i - 1));
        let e = &stack[i - 1];
        if e.tooltip.is_some() && e.interaction != Interaction::Idle {
            hit = true;
            break;
        }
        i = i - 1;
    }
    let mut refreshed = false;
    if hit {
        proof {
            lemma_top_hit(s0);
        }
        let e = stack.remove(i - 1);
        if let Some(t) = e.tooltip {
            if e.interaction == Interaction::Pressed && t.dismissal.on_click {
                ctx.target = e.element;
                ctx.state = TooltipState::Dismissed;
                ctx.tooltip.transfer = t.transfer;
            } else if ctx.state != TooltipState::Inactive && ctx.target == e.element {
                ctx.tooltip = t;
                refreshed = true;
            } else {
                let skip = t.activation.delay == 0 || (ctx.state == TooltipState::Inactive
                    && ctx.timer > 0 && t.transfer.layer >= ctx.tooltip.transfer.layer && (
                match (ctx.tooltip.transfer.group, t.transfer.group) {
                    (Some(x), Some(y)) => x == y,
                    _ => false,
                } || ctx.target == e.element));
                ctx.state = if skip {
                    TooltipState::Active
                } else {
                    TooltipState::Delayed
                };
                ctx.target = e.element;
                ctx.timer = t.activation.delay;
                ctx.tooltip = t;
            }
        }
    } else if ctx.state != TooltipState::Inactive {
        ctx.timer = if ctx.state == TooltipState::Active || !ctx.tooltip.transfer.from_active {
            ctx.tooltip.transfer.timeout
        } else {
            0
        };
        ctx.state = TooltipState::Inactive;
    }

    assert(*ctx == scan(c1, s0));
    assert(refreshed == refreshes(c1, s0));
    // What the host must show or hide.
    let new_active = ctx.state == TooltipState::Active;
    let new_entity = ctx.tooltip.content.element(primary_container);
    let changed = old_active != new_active || old_target != ctx.target || old_entity != new_entity;
    TooltipEvents {
        hide: if changed {
            Some(old_entity)
        } else {
            None
        },
        show: changed && new_active,
        refresh: !changed && new_active && refreshed,
    }
}

/// The sum of frame times `ds`.
pub open spec fn total(ds: Seq<u64>) -> int
    decreases ds.len(),
{
    if ds.len() == 0 {
        0
    } else {
        total(ds.drop_last()) + ds.last()
    }
}

/// The context after frames of times `ds`, with the same pointer and interaction stack
/// in each.
pub open spec fn run(
    c: TooltipContext,
    cursor: Option<Point>,
    ds: Seq<u64>,
    s: Seq<StackEntry>,
    primary_container: ElementId,
) -> TooltipContext
    decreases ds.len(),
{
    if ds.len() == 0 {
        c
    } else {
        frame(run(c, cursor, ds.drop_last(), s, primary_container), cursor, ds.last(), s, primary_container).0
    }
}

/// Element `i` is the topmost of the stack that qualifies, it is merely hovered, and
/// it is the target of `c`.
pub open spec fn hovers_target(c: TooltipContext, s: Seq<StackEntry>, i: int) -> bool {
    top_hit(s) == Some(i) && s[i].interaction == Interaction::Hovered && s[i].element == c.target
}

/// While the pointer rests on the target of a delayed tooltip, the tooltip activates
/// on the frame where the frame times first add up to the time that was left, and not
/// before: until then it stays delayed with that much less time left.
pub proof fn lemma_delay_activates(
    c: TooltipContext,
    ds: Seq<u64>,
    s: Seq<StackEntry>,
    i: int,
    primary_container: ElementId,
)
    requires
        c.state == TooltipState::Delayed,
        c.timer > 0,
        hovers_target(c, s, i),
    ensures
        ({
            let r = run(c, Some(c.cursor_pos), ds, s, primary_container);
            &&& r.target == c.target
            &&& r.cursor_pos == c.cursor_pos
            &&& total(ds) < c.timer ==> r.state == TooltipState::Delayed && r.timer == c.timer
                - total(ds)
            &&& total(ds) >= c.timer ==> r.state == TooltipState::Active
        }),
    decreases ds.len(),
{
    if ds.len() > 0 {
        lemma_delay_activates(c, ds.drop_last(), s, i, primary_container);
        lemma_top_hit(s);
    }
}

/// With a tooltip that restarts its delay on pointer moves, a frame in which the
/// pointer moves over the delayed target starts the delay over from its full length;
/// the frame's own time then counts against it.
pub proof fn lemma_move_resets_delay(
    c: TooltipContext,
    p: Point,
    delta: u64,
    s: Seq<StackEntry>,
    i: int,
    primary_container: ElementId,
)
    requires
        c.state == TooltipState::Delayed,
        c.tooltip.activation.reset_delay_on_cursor_move,
        p != c.cursor_pos,
        hovers_target(c, s, i),
    ensures
        track_cursor(c, Some(p)).timer == c.tooltip.activation.delay,
        ({
            let r = frame(c, Some(p), delta, s, primary_container).0;
            &&& r.timer == ticked(c.tooltip.activation.delay, delta)
            &&& r.state == if delta >= c.tooltip.activation.delay {
                TooltipState::Active
            } else {
                TooltipState::Delayed
            }
        }),
{
    lemma_top_hit(s);
}

/// A frame in which the pointer moves too far from where the active tooltip appeared
/// dismisses it while its element is still found, and ends it if nothing is found.
pub proof fn lemma_dismiss_by_distance(
    c: TooltipContext,
    p: Point,
    delta: u64,
    s: Seq<StackEntry>,
    primary_container: ElementId,
)
    requires
        c.state == TooltipState::Active,
        too_far(c.tooltip, c.cursor_pos, p),
    ensures
        ({
            let r = frame(c, Some(p), delta, s, primary_container).0;
            &&& top_hit(s) is None ==> r.state == TooltipState::Inactive
            &&& (top_hit(s) is Some && s[top_hit(s).unwrap()].element == c.target)
                ==> r.state == TooltipState::Dismissed
        }),
{
    lemma_top_hit(s);
}

/// A dismissed tooltip stays dismissed while its element is still found, and the
/// state becomes inactive on the first frame that finds nothing.
pub proof fn lemma_dismissed_until_left(
    c: TooltipContext,
    cursor: Option<Point>,
    delta: u64,
    s: Seq<StackEntry>,
    primary_container: ElementId,
)
    requires
        c.state == TooltipState::Dismissed,
    ensures
        ({
            let r = frame(c, cursor, delta, s, primary_container).0;
            &&& top_hit(s) is None ==> r.state == TooltipState::Inactive
            &&& (top_hit(s) is Some && s[top_hit(s).unwrap()].element == c.target)
                ==> r.state == TooltipState::Dismissed
        }),
{
    lemma_top_hit(s);
}

/// While nothing qualifies, an inactive context stays inactive and its transfer window
/// runs down by the frame times, stopping at zero.
pub proof fn lemma_inactive_wait(
    c: TooltipContext,
    cursor: Option<Point>,
    ds: Seq<u64>,
    empty: Seq<StackEntry>,
    primary_container: ElementId,
)
    requires
        c.state == TooltipState::Inactive,
        top_hit(empty) is None,
    ensures
        ({
            let r = run(c, cursor, ds, empty, primary_container);
            &&& r.state == TooltipState::Inactive
            &&& r.target == c.target
            &&& r.tooltip == c.tooltip
            &&& r.timer == if total(ds) >= c.timer {
                0
            } else {
                c.timer - total(ds)
            }
        }),
    decreases ds.len(),
{
    if ds.len() > 0 {
        lemma_inactive_wait(c, cursor, ds.drop_last(), empty, primary_container);
    }
}

/// Transfer: the pointer leaves an active tooltip `A` (a frame that finds nothing,
/// without moving too far for `A`), frames of times `waits` find nothing, and the
/// next frame, `delta` milliseconds later, finds `B` of the same group and a layer at
/// least as high. If the time since leaving is within `A`'s transfer timeout, `B` is
/// shown at once; otherwise `B` keeps its own delay and nothing is shown.
pub proof fn lemma_transfer_skips_delay(
    c: TooltipContext,
    cursor: Option<Point>,
    leave_delta: u64,
    empty: Seq<StackEntry>,
    waits: Seq<u64>,
    delta: u64,
    s: Seq<StackEntry>,
    i: int,
    primary_container: ElementId,
)
    requires
        c.state == TooltipState::Active,
        match cursor {
            Some(p) => !too_far(c.tooltip, c.cursor_pos, p),
            None => true,
        },
        top_hit(empty) is None,
        top_hit(s) == Some(i),
        s[i].interaction == Interaction::Hovered,
        same_group(c.tooltip.transfer.group, s[i].tooltip.unwrap().transfer.group),
        s[i].tooltip.unwrap().transfer.layer >= c.tooltip.transfer.layer,
    ensures
        ({
            let left = frame(c, cursor, leave_delta, empty, primary_container).0;
            let waited = run(left, cursor, waits, empty, primary_container);
            let (r, ev) = frame(waited, cursor, delta, s, primary_container);
            let b = s[i].tooltip.unwrap();
            &&& left.state == TooltipState::Inactive
            &&& left.timer == c.tooltip.transfer.timeout
            &&& waited.state == TooltipState::Inactive
            &&& r.target == s[i].element
            &&& total(waits) + delta < c.tooltip.transfer.timeout ==> r.state
                == TooltipState::Active && ev.show
            &&& (total(waits) + delta >= c.tooltip.transfer.timeout && b.activation.delay > 0)
                ==> r.state == TooltipState::Delayed && r.timer == b.activation.delay && !ev.show
        }),
{
    lemma_top_hit(s);
    lemma_top_hit(empty);
    let left = frame(c, cursor, leave_delta, empty, primary_container).0;
    lemma_inactive_wait(left, cursor, waits, empty, primary_container);
}

/// Layers: within an open transfer window, a newly found element `B` of the same group
/// skips its delay if its layer is at least that of the tooltip left behind, and keeps
/// its delay if its layer is lower.
pub proof fn lemma_transfer_layers(
    c: TooltipContext,
    cursor: Option<Point>,
    delta: u64,
    s: Seq<StackEntry>,
    i: int,
    primary_container: ElementId,
)
    requires
        c.state == TooltipState::Inactive,
        c.timer > delta,
        top_hit(s) == Some(i),
        s[i].interaction == Interaction::Hovered,
        same_group(c.tooltip.transfer.group, s[i].tooltip.unwrap().transfer.group),
        s[i].tooltip.unwrap().activation.delay > 0,
    ensures
        frame(c, cursor, delta, s, primary_container).0.state == if s[i].tooltip.unwrap().transfer.layer
            >= c.tooltip.transfer.layer {
            TooltipState::Active
        } else {
            TooltipState::Delayed
        },
{
    lemma_top_hit(s);
}

/// While the active tooltip's element stays hovered, its content stays in the same
/// element and the pointer stays close enough, a frame keeps the state and the timer, shows and hides nothing, and takes
/// the element's tooltip anew so that changed content reaches the display.
pub proof fn lemma_rehover_idempotent(
    c: TooltipContext,
    cursor: Option<Point>,
    delta: u64,
    s: Seq<StackEntry>,
    i: int,
    primary_container: ElementId,
)
    requires
        c.state == TooltipState::Active,
        hovers_target(c, s, i),
        content_element(s[i].tooltip.unwrap().content, primary_container) == content_element(
            c.tooltip.content,
            primary_container,
        ),
        match cursor {
            Some(p) => !too_far(c.tooltip, c.cursor_pos, p),
            None => true,
        },
    ensures
        ({
            let (r, ev) = frame(c, cursor, delta, s, primary_container);
            &&& r.state == TooltipState::Active
            &&& r.target == c.target
            &&& r.timer == c.timer
            &&& r.tooltip == s[i].tooltip.unwrap()
            &&& ev == TooltipEvents { hide: None, show: false, refresh: true }
        }),
{
    lemma_top_hit(s);
}

/// When the active tooltip's element stays hovered but its content moves to another
/// element, the frame hides the old content element and shows the new one.
pub proof fn lemma_content_switch(
    c: TooltipContext,
    cursor: Option<Point>,
    delta: u64,
    s: Seq<StackEntry>,
    i: int,
    primary_container: ElementId,
)
    requires
        c.state == TooltipState::Active,
        hovers_target(c, s, i),
        content_element(s[i].tooltip.unwrap().content, primary_container) != content_element(
            c.tooltip.content,
            primary_container,
        ),
        match cursor {
            Some(p) => !too_far(c.tooltip, c.cursor_pos, p),
            None => true,
        },
    ensures
        ({
            let (r, ev) = frame(c, cursor, delta, s, primary_container);
            &&& r.state == TooltipState::Active
            &&& r.tooltip == s[i].tooltip.unwrap()
            &&& ev == TooltipEvents {
                hide: Some(content_element(c.tooltip.content, primary_container)),
                show: true,
                refresh: false,
            }
        }),
{
    lemma_top_hit(s);
}

/// Hands the governing tooltip's content over for display: returns the element to
/// make visible and, for primary content, the text to put into the primary tooltip,
/// which the context gives up.
pub fn show_tooltip(ctx: &mut TooltipContext, primary_container: ElementId) -> (r: (
    ElementId,
    Option<RichText>,
))
    ensures
        final(ctx).state == old(ctx).state,
        final(ctx).target == old(ctx).target,
        final(ctx).timer == old(ctx).timer,
        final(ctx).cursor_pos == old(ctx).cursor_pos,
        final(ctx).tooltip.placement == old(ctx).tooltip.placement,
        final(ctx).tooltip.activation == old(ctx).tooltip.activation,
        final(ctx).tooltip.dismissal == old(ctx).tooltip.dismissal,
        final(ctx).tooltip.transfer == old(ctx).tooltip.transfer,
        r.0 == content_element(old(ctx).tooltip.content, primary_container),
        match old(ctx).tooltip.content {
            TooltipContent::Primary(t) => r.1 == Some(t) && match final(ctx).tooltip.content {
                TooltipContent::Primary(e) => e.sections@.len() == 0 && e.justify == Justify::Left
                    && e.linebreak_behavior == LineBreak::WordBoundary,
                TooltipContent::Custom(_) => false,
            },
            TooltipContent::Custom(_) => r.1 is None && final(ctx).tooltip.content == old(
                ctx,
            ).tooltip.content,
        },
{
    let mut taken = RichText::default();
    match &mut ctx.tooltip.content {
        TooltipContent::Primary(text) => {
            std::mem::swap(text, &mut taken);
            (primary_container, Some(taken))
        },
        TooltipContent::Custom(id) => (*id, None),
    }
}

} // verus!
