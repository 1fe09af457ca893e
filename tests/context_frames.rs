use pyri_tooltip::{
    find_cursor, show_tooltip, update_tooltip_context, CameraWindow, ElementId, Interaction,
    Point, StackEntry, Tooltip, TooltipActivation, TooltipContent, TooltipContext,
    TooltipDismissal, TooltipState, TooltipTransfer,
};

const PRIMARY: ElementId = ElementId(1);

fn text_tooltip(s: &str) -> Tooltip {
    Tooltip::cursor(TooltipContent::text(s.to_string()))
}

fn entry(id: u64, interaction: Interaction, tooltip: Tooltip) -> StackEntry {
    StackEntry { element: ElementId(id), interaction, tooltip: Some(tooltip) }
}

fn delayed(delay: u16, reset: bool) -> Tooltip {
    text_tooltip("hint").with_activation(TooltipActivation { delay, reset_delay_on_cursor_move: reset })
}

fn primary_text(c: &TooltipContent) -> String {
    match c {
        TooltipContent::Primary(t) => t.sections[0].value.clone(),
        TooltipContent::Custom(_) => panic!("custom content"),
    }
}

#[test]
fn new_context_is_inactive() {
    let ctx = TooltipContext::new();
    assert_eq!(ctx.state, TooltipState::Inactive);
    assert_eq!(ctx.timer, 0);
    assert_eq!(ctx.target, ElementId::placeholder());
}

#[test]
fn delay_activates_exactly_when_time_adds_up() {
    let mut ctx = TooltipContext::new();
    let at = Some(Point::from_px(10, 10));
    let stack = || vec![entry(5, Interaction::Hovered, delayed(100, false))];
    let ev = update_tooltip_context(&mut ctx, at, 0, stack(), PRIMARY);
    assert_eq!(ctx.state, TooltipState::Delayed);
    assert_eq!(ctx.timer, 100);
    assert!(!ev.show);
    for (step, left) in [(30u64, 70u16), (30, 40), (30, 10)] {
        let ev = update_tooltip_context(&mut ctx, at, step, stack(), PRIMARY);
        assert_eq!(ctx.state, TooltipState::Delayed);
        assert_eq!(ctx.timer, left);
        assert!(!ev.show);
        assert_eq!(ev.hide, None);
    }
    let ev = update_tooltip_context(&mut ctx, at, 10, stack(), PRIMARY);
    assert_eq!(ctx.state, TooltipState::Active);
    assert!(ev.show);
    assert_eq!(ev.hide, Some(PRIMARY));
}

#[test]
fn zero_delay_activates_at_once() {
    let mut ctx = TooltipContext::new();
    let stack = vec![entry(5, Interaction::Hovered, delayed(0, false))];
    let ev = update_tooltip_context(&mut ctx, None, 16, stack, PRIMARY);
    assert_eq!(ctx.state, TooltipState::Active);
    assert!(ev.show);
}

#[test]
fn moving_pointer_resets_delay() {
    let mut ctx = TooltipContext::new();
    let stack = || vec![entry(5, Interaction::Hovered, delayed(300, true))];
    update_tooltip_context(&mut ctx, Some(Point::from_px(10, 10)), 0, stack(), PRIMARY);
    update_tooltip_context(&mut ctx, Some(Point::from_px(10, 10)), 100, stack(), PRIMARY);
    update_tooltip_context(&mut ctx, Some(Point::from_px(10, 10)), 100, stack(), PRIMARY);
    assert_eq!(ctx.timer, 100);
    update_tooltip_context(&mut ctx, Some(Point::from_px(11, 10)), 20, stack(), PRIMARY);
    assert_eq!(ctx.state, TooltipState::Delayed);
    assert_eq!(ctx.timer, 280);
}

#[test]
fn moving_pointer_keeps_delay_without_reset() {
    let mut ctx = TooltipContext::new();
    let stack = || vec![entry(5, Interaction::Hovered, delayed(300, false))];
    update_tooltip_context(&mut ctx, Some(Point::from_px(10, 10)), 0, stack(), PRIMARY);
    update_tooltip_context(&mut ctx, Some(Point::from_px(10, 10)), 200, stack(), PRIMARY);
    update_tooltip_context(&mut ctx, Some(Point::from_px(40, 10)), 20, stack(), PRIMARY);
    assert_eq!(ctx.timer, 80);
}

#[test]
fn distance_dismisses_then_leaving_deactivates() {
    let mut ctx = TooltipContext::new();
    let t = delayed(0, false).with_dismissal(TooltipDismissal {
        on_distance: Some(10 * 64),
        on_click: false,
    });
    let stack = || vec![entry(5, Interaction::Hovered, t.clone())];
    update_tooltip_context(&mut ctx, Some(Point::from_px(0, 0)), 0, stack(), PRIMARY);
    assert_eq!(ctx.state, TooltipState::Active);
    // 6-8-10 triangle: exactly at the limit, still active.
    update_tooltip_context(&mut ctx, Some(Point::from_px(6, 8)), 16, stack(), PRIMARY);
    assert_eq!(ctx.state, TooltipState::Active);
    let ev = update_tooltip_context(&mut ctx, Some(Point::from_px(7, 8)), 16, stack(), PRIMARY);
    assert_eq!(ctx.state, TooltipState::Dismissed);
    assert_eq!(ev.hide, Some(PRIMARY));
    assert!(!ev.show);
    update_tooltip_context(&mut ctx, Some(Point::from_px(7, 8)), 16, stack(), PRIMARY);
    assert_eq!(ctx.state, TooltipState::Dismissed);
    update_tooltip_context(&mut ctx, Some(Point::from_px(7, 8)), 16, vec![], PRIMARY);
    assert_eq!(ctx.state, TooltipState::Inactive);
}

#[test]
fn distance_dismissal_with_nothing_found_deactivates() {
    let mut ctx = TooltipContext::new();
    let t = delayed(0, false).with_dismissal(TooltipDismissal { on_distance: Some(64), on_click: false });
    update_tooltip_context(&mut ctx, Some(Point::from_px(0, 0)), 0, vec![entry(5, Interaction::Hovered, t)], PRIMARY);
    update_tooltip_context(&mut ctx, Some(Point::from_px(9, 0)), 16, vec![], PRIMARY);
    assert_eq!(ctx.state, TooltipState::Inactive);
    assert_eq!(ctx.timer, 0);
}

#[test]
fn click_dismisses() {
    let mut ctx = TooltipContext::new();
    let t = delayed(0, false).with_dismissal(TooltipDismissal::dismiss_on_click());
    update_tooltip_context(&mut ctx, None, 0, vec![entry(5, Interaction::Hovered, t.clone())], PRIMARY);
    assert_eq!(ctx.state, TooltipState::Active);
    let ev = update_tooltip_context(&mut ctx, None, 16, vec![entry(5, Interaction::Pressed, t)], PRIMARY);
    assert_eq!(ctx.state, TooltipState::Dismissed);
    assert_eq!(ev.hide, Some(PRIMARY));
}

fn grouped(layer: i8, delay: u16) -> Tooltip {
    delayed(delay, false).with_transfer(TooltipTransfer {
        group: Some(3),
        layer,
        timeout: 100,
        from_active: true,
    })
}

fn transfer_after(gap: u64, from_layer: i8, to_layer: i8) -> TooltipState {
    let mut ctx = TooltipContext::new();
    update_tooltip_context(&mut ctx, None, 0, vec![entry(5, Interaction::Hovered, grouped(from_layer, 0))], PRIMARY);
    assert_eq!(ctx.state, TooltipState::Active);
    update_tooltip_context(&mut ctx, None, 16, vec![], PRIMARY);
    assert_eq!(ctx.state, TooltipState::Inactive);
    assert_eq!(ctx.timer, 100);
    update_tooltip_context(&mut ctx, None, gap, vec![entry(6, Interaction::Hovered, grouped(to_layer, 400))], PRIMARY);
    assert_eq!(ctx.target, ElementId(6));
    ctx.state
}

#[test]
fn transfer_within_timeout_skips_delay() {
    assert_eq!(transfer_after(60, 0, 0), TooltipState::Active);
}

#[test]
fn transfer_after_timeout_keeps_delay() {
    assert_eq!(transfer_after(100, 0, 0), TooltipState::Delayed);
    assert_eq!(transfer_after(150, 0, 0), TooltipState::Delayed);
}

#[test]
fn transfer_to_lower_layer_is_denied() {
    assert_eq!(transfer_after(10, 1, 0), TooltipState::Delayed);
}

#[test]
fn transfer_to_higher_layer_is_allowed() {
    assert_eq!(transfer_after(10, 0, 1), TooltipState::Active);
}

#[test]
fn transfer_needs_same_group() {
    let mut ctx = TooltipContext::new();
    update_tooltip_context(&mut ctx, None, 0, vec![entry(5, Interaction::Hovered, grouped(0, 0))], PRIMARY);
    update_tooltip_context(&mut ctx, None, 16, vec![], PRIMARY);
    let other = delayed(400, false).with_transfer(TooltipTransfer { group: Some(4), layer: 0, timeout: 100, from_active: true });
    update_tooltip_context(&mut ctx, None, 10, vec![entry(6, Interaction::Hovered, other)], PRIMARY);
    assert_eq!(ctx.state, TooltipState::Delayed);
}

#[test]
fn transfer_back_to_same_element_without_group() {
    let mut ctx = TooltipContext::new();
    let t = || delayed(400, false).with_transfer(TooltipTransfer { group: None, layer: 0, timeout: 100, from_active: false });
    update_tooltip_context(&mut ctx, None, 0, vec![entry(5, Interaction::Hovered, t())], PRIMARY);
    assert_eq!(ctx.state, TooltipState::Delayed);
    update_tooltip_context(&mut ctx, None, 16, vec![], PRIMARY);
    assert_eq!(ctx.timer, 100);
    update_tooltip_context(&mut ctx, None, 16, vec![entry(5, Interaction::Hovered, t())], PRIMARY);
    assert_eq!(ctx.state, TooltipState::Active);
}

#[test]
fn leaving_delayed_tooltip_opens_no_window_when_from_active() {
    let mut ctx = TooltipContext::new();
    update_tooltip_context(&mut ctx, None, 0, vec![entry(5, Interaction::Hovered, grouped(0, 400))], PRIMARY);
    update_tooltip_context(&mut ctx, None, 16, vec![], PRIMARY);
    assert_eq!(ctx.state, TooltipState::Inactive);
    assert_eq!(ctx.timer, 0);
}

#[test]
fn rehover_keeps_state_and_refreshes_content() {
    let mut ctx = TooltipContext::new();
    let t = |s: &str| Tooltip::cursor(TooltipContent::text(s.to_string())).with_activation(TooltipActivation::immediate());
    let ev = update_tooltip_context(&mut ctx, None, 0, vec![entry(5, Interaction::Hovered, t("one"))], PRIMARY);
    assert!(ev.show);
    let timer = ctx.timer;
    let ev = update_tooltip_context(&mut ctx, None, 16, vec![entry(5, Interaction::Hovered, t("two"))], PRIMARY);
    assert_eq!(ctx.state, TooltipState::Active);
    assert_eq!(ctx.timer, timer);
    assert_eq!(ev.hide, None);
    assert!(!ev.show);
    assert!(ev.refresh);
    assert_eq!(primary_text(&ctx.tooltip.content), "two");
}

#[test]
fn topmost_element_wins() {
    let mut ctx = TooltipContext::new();
    let stack = vec![
        entry(1, Interaction::Hovered, delayed(0, false)),
        entry(2, Interaction::Hovered, delayed(0, false)),
        StackEntry { element: ElementId(3), interaction: Interaction::Hovered, tooltip: None },
        entry(4, Interaction::Idle, delayed(0, false)),
    ];
    update_tooltip_context(&mut ctx, None, 0, stack, PRIMARY);
    assert_eq!(ctx.target, ElementId(2));
}

#[test]
fn show_hands_over_primary_text() {
    let mut ctx = TooltipContext::new();
    update_tooltip_context(&mut ctx, None, 0, vec![entry(5, Interaction::Hovered, delayed(0, false))], PRIMARY);
    let (shown, text) = show_tooltip(&mut ctx, PRIMARY);
    assert_eq!(shown, PRIMARY);
    assert_eq!(text.unwrap().sections[0].value, "hint");
    match &ctx.tooltip.content {
        TooltipContent::Primary(t) => assert!(t.sections.is_empty()),
        TooltipContent::Custom(_) => panic!("content changed kind"),
    }
}

#[test]
fn show_custom_content() {
    let mut ctx = TooltipContext::new();
    let t = Tooltip::follow_cursor(TooltipContent::Custom(ElementId(77)));
    update_tooltip_context(&mut ctx, None, 0, vec![entry(5, Interaction::Hovered, t)], PRIMARY);
    let (shown, text) = show_tooltip(&mut ctx, PRIMARY);
    assert_eq!(shown, ElementId(77));
    assert!(text.is_none());
    let ev = update_tooltip_context(&mut ctx, None, 16, vec![], PRIMARY);
    assert_eq!(ev.hide, Some(ElementId(77)));
}

#[test]
fn follow_tooltip_tracks_pointer_while_active() {
    let mut ctx = TooltipContext::new();
    let t = Tooltip::follow_cursor(TooltipContent::text("f".to_string()));
    let stack = || vec![entry(5, Interaction::Hovered, t.clone())];
    update_tooltip_context(&mut ctx, Some(Point::from_px(1, 1)), 0, stack(), PRIMARY);
    update_tooltip_context(&mut ctx, Some(Point::from_px(9, 4)), 16, stack(), PRIMARY);
    assert_eq!(ctx.cursor_pos, Point::from_px(9, 4));
    let fixed = delayed(0, false);
    let mut ctx = TooltipContext::new();
    update_tooltip_context(&mut ctx, Some(Point::from_px(1, 1)), 0, vec![entry(5, Interaction::Hovered, fixed.clone())], PRIMARY);
    update_tooltip_context(&mut ctx, Some(Point::from_px(9, 4)), 16, vec![entry(5, Interaction::Hovered, fixed)], PRIMARY);
    assert_eq!(ctx.cursor_pos, Point::from_px(1, 1));
}

#[test]
fn cursor_from_first_focused_window() {
    let cams = vec![
        CameraWindow { window_target: false, focused: true, cursor: Some(Point::from_px(1, 1)) },
        CameraWindow { window_target: true, focused: false, cursor: Some(Point::from_px(2, 2)) },
        CameraWindow { window_target: true, focused: true, cursor: None },
        CameraWindow { window_target: true, focused: true, cursor: Some(Point::from_px(4, 4)) },
        CameraWindow { window_target: true, focused: true, cursor: Some(Point::from_px(5, 5)) },
    ];
    assert_eq!(find_cursor(&cams), Some(Point::from_px(4, 4)));
    assert_eq!(find_cursor(&vec![]), None);
}

#[test]
fn content_element_change_hides_old_and_shows_new() {
    let mut ctx = TooltipContext::new();
    let t = |id: u64| Tooltip::follow_cursor(TooltipContent::Custom(ElementId(id)));
    let ev = update_tooltip_context(&mut ctx, None, 0, vec![entry(5, Interaction::Hovered, t(70))], PRIMARY);
    assert!(ev.show);
    let ev = update_tooltip_context(&mut ctx, None, 16, vec![entry(5, Interaction::Hovered, t(71))], PRIMARY);
    assert_eq!(ctx.state, TooltipState::Active);
    assert_eq!(ev.hide, Some(ElementId(70)));
    assert!(ev.show);
    assert!(!ev.refresh);
    let (shown, _) = show_tooltip(&mut ctx, PRIMARY);
    assert_eq!(shown, ElementId(71));
    let ev = update_tooltip_context(&mut ctx, None, 16, vec![entry(5, Interaction::Hovered, Tooltip::follow_cursor(TooltipContent::text("p".to_string())))], PRIMARY);
    assert_eq!(ev.hide, Some(ElementId(71)));
    assert!(ev.show);
}

#[test]
fn transfer_window_spans_empty_frames() {
    let mut ctx = TooltipContext::new();
    update_tooltip_context(&mut ctx, None, 0, vec![entry(5, Interaction::Hovered, grouped(0, 0))], PRIMARY);
    update_tooltip_context(&mut ctx, None, 16, vec![], PRIMARY);
    update_tooltip_context(&mut ctx, None, 30, vec![], PRIMARY);
    update_tooltip_context(&mut ctx, None, 30, vec![], PRIMARY);
    assert_eq!(ctx.state, TooltipState::Inactive);
    assert_eq!(ctx.timer, 40);
    let ev = update_tooltip_context(&mut ctx, None, 30, vec![entry(6, Interaction::Hovered, grouped(0, 400))], PRIMARY);
    assert_eq!(ctx.state, TooltipState::Active);
    assert!(ev.show);

    let mut ctx = TooltipContext::new();
    update_tooltip_context(&mut ctx, None, 0, vec![entry(5, Interaction::Hovered, grouped(0, 0))], PRIMARY);
    update_tooltip_context(&mut ctx, None, 16, vec![], PRIMARY);
    update_tooltip_context(&mut ctx, None, 60, vec![], PRIMARY);
    let ev = update_tooltip_context(&mut ctx, None, 40, vec![entry(6, Interaction::Hovered, grouped(0, 400))], PRIMARY);
    assert_eq!(ctx.state, TooltipState::Delayed);
    assert_eq!(ctx.timer, 400);
    assert!(!ev.show);
}
