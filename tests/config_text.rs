use pyri_tooltip::{
    plan_text_spans, tooltips_enabled, Anchor, ElementId, Justify, LineBreak, RichText,
    SpanAction, TargetPoint, TextSection, TextStyle, Tooltip, TooltipActivation, TooltipContent,
    TooltipPlacement, TooltipPlugin, TooltipSettings, TooltipTransfer, Val,
};

#[test]
fn presets() {
    assert_eq!(TooltipActivation::default().delay, 0);
    assert_eq!(TooltipActivation::from(250), TooltipActivation { delay: 250, reset_delay_on_cursor_move: false });
    assert!(TooltipActivation::long_idle().reset_delay_on_cursor_move);
    assert_eq!(TooltipTransfer::from(70).timeout, 70);
    assert_eq!(TooltipTransfer::from(70).group, Some(0));
    assert_eq!(TooltipTransfer::default(), TooltipTransfer::none());
    assert_eq!(TooltipPlacement::default(), TooltipPlacement::cursor_centered());
    assert_eq!(TooltipPlacement::cursor().offset_x, Val::Px(16 * 64));
}

#[test]
fn fixed_tooltip_points_outward() {
    let t = Tooltip::fixed(Anchor::top_right(), TooltipContent::Custom(ElementId(3)));
    assert_eq!(t.placement.anchor_point, Anchor::bottom_left());
    assert_eq!(t.placement.target_point, TargetPoint::Fixed(Anchor::top_right()));
    assert_eq!(t.transfer, TooltipTransfer::short());
}

#[test]
fn justify_applies_to_primary_text_only() {
    let t = Tooltip::cursor(TooltipContent::text("a".to_string())).with_justify(Justify::Center);
    match t.content {
        TooltipContent::Primary(r) => assert_eq!(r.justify, Justify::Center),
        TooltipContent::Custom(_) => panic!("kind changed"),
    }
    let t = Tooltip::cursor(TooltipContent::Custom(ElementId(8))).with_justify(Justify::Center);
    assert!(matches!(t.content, TooltipContent::Custom(ElementId(8))));
}

#[test]
fn rich_text_builders() {
    let r = RichText::from_section("x".to_string(), TextStyle::default()).with_no_wrap();
    assert_eq!(r.linebreak_behavior, LineBreak::NoWrap);
    assert_eq!(r.sections.len(), 1);
    assert_eq!(r.sections[0].style.font_size, 20 * 64);
    let s = TextSection::from_style(TextStyle::default());
    assert!(s.value.is_empty());
    let r = RichText::from_sections(vec![TextSection::new("a".to_string(), s.style), s]);
    assert_eq!(r.sections.len(), 2);
    assert_eq!(r.sections[0].value, "a");
}

#[test]
fn span_plan_reuses_then_despawns() {
    let children = vec![true, false, true, true, false, true];
    let plan = plan_text_spans(&children, 2);
    assert_eq!(
        plan.actions,
        vec![
            SpanAction::Write(0),
            SpanAction::Skip,
            SpanAction::Write(1),
            SpanAction::Despawn,
            SpanAction::Skip,
            SpanAction::Despawn,
        ]
    );
    assert_eq!(plan.spawn_from, 2);
}

#[test]
fn span_plan_spawns_missing() {
    let plan = plan_text_spans(&vec![false, true], 4);
    assert_eq!(plan.actions, vec![SpanAction::Skip, SpanAction::Write(0)]);
    assert_eq!(plan.spawn_from, 1);
    assert_eq!(plan_text_spans(&vec![], 3).spawn_from, 0);
}

#[test]
fn enabled_settings() {
    let s = TooltipSettings { container: ElementId(1), text: ElementId(2), enabled: true };
    assert!(tooltips_enabled(&s, false));
    assert!(!tooltips_enabled(&s, true));
    let p = TooltipPlugin::default();
    assert!(p.enabled);
    assert_eq!(p.container, ElementId::placeholder());
}

#[test]
fn conversions_into_content_and_sections() {
    let c = TooltipContent::from(ElementId(12));
    assert!(matches!(c, TooltipContent::Custom(ElementId(12))));
    let c = TooltipContent::from(RichText::default());
    assert!(matches!(c, TooltipContent::Primary(_)));
    let s = TextSection::from("hello".to_string());
    assert_eq!(s.value, "hello");
    assert_eq!(s.style, TextStyle::default());
}

#[test]
fn default_context_is_fresh() {
    let ctx = pyri_tooltip::TooltipContext::default();
    assert_eq!(ctx.state, pyri_tooltip::TooltipState::Inactive);
    assert!(matches!(ctx.tooltip.content, TooltipContent::Custom(id) if id == ElementId::placeholder()));
}

#[test]
fn content_from_strings_and_sections() {
    for c in [TooltipContent::from("hi"), TooltipContent::from("hi".to_string())] {
        match c {
            TooltipContent::Primary(t) => {
                assert_eq!(t.sections.len(), 1);
                assert_eq!(t.sections[0].value, "hi");
                assert_eq!(t.sections[0].style, TextStyle::default());
            }
            TooltipContent::Custom(_) => panic!("not text"),
        }
    }
    let style = TextStyle { font: 2, font_size: 640, color: pyri_tooltip::Rgba { r: 1, g: 2, b: 3, a: 4 } };
    match TooltipContent::from(TextSection::new("x".to_string(), style)) {
        TooltipContent::Primary(t) => assert_eq!(t.sections[0].style, style),
        TooltipContent::Custom(_) => panic!("not text"),
    }
    match TooltipContent::from(vec![TextSection::from("a"), TextSection::from("b")]) {
        TooltipContent::Primary(t) => {
            assert_eq!(t.sections.len(), 2);
            assert_eq!(t.sections[1].value, "b");
        }
        TooltipContent::Custom(_) => panic!("not text"),
    }
}
