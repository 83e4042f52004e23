use conrod_core::widget::id::List;
use conrod_core::UiBuilder;
use control_display::alarm::{AlarmCode, AlarmPriority};
use control_display::color::{Paint, Rgba};
use control_display::config::{AlarmsWidgetConfig, ControlWidgetType};
use control_display::control::ControlWidget;
use control_display::draw::{DrawCommand, Font, Placement, Shape, TextStyle};
use control_display::environment::Environment;
use control_display::ids::WidgetId;

fn environment(max_alarms: usize) -> Environment {
    Environment {
        window_size_width: 8000,
        window_size_height: 4800,
        rounded_rectangles_round: 20,
        alarm_container_width: 4050,
        alarm_container_height: 700,
        alarm_container_padding_left: 270,
        alarm_container_color: Rgba { red: 17, green: 17, blue: 17, alpha: 100 },
        alarm_message_width: 3000,
        alarm_message_height: 220,
        alarm_message_spacing_top_initial: 100,
        alarm_message_spacing_top_inner: 40,
        alarm_code_width: 500,
        alarm_code_height: 220,
        max_alarms,
        stopped_message_container_width: 4000,
        stopped_message_container_height: 1200,
        stopped_message_padding_top: 300,
        stopped_message_padding_bottom: 350,
        branding_image_margin_top: 30,
        branding_image_margin_left: 50,
        branding_text_margin_top: 320,
        branding_text_margin_left: 50,
        graph_draw_spacing_from_bottom: 550,
        telemetry_widget_size_width: 1200,
        telemetry_widget_size_height: 1000,
        telemetry_widget_size_spacing: 40,
    }
}

/// Five pools of `len` identifiers each, no identifier twice.
fn pools(len: usize) -> Vec<List> {
    let mut ui = UiBuilder::new([800.0, 480.0]).build();
    let mut generator = ui.widget_id_generator();
    let mut pools = Vec::new();
    for _ in 0..5 {
        let mut pool = List::new();
        pool.resize(len, &mut generator);
        pools.push(pool);
    }
    pools
}

fn config<'a>(
    pools: &'a [List],
    alarms: &'a [(&'a AlarmCode, &'a AlarmPriority)],
) -> AlarmsWidgetConfig<'a> {
    AlarmsWidgetConfig {
        parent: WidgetId::new(900),
        container: WidgetId::new(901),
        title: WidgetId::new(902),
        empty: WidgetId::new(903),
        alarm_widgets: &pools[0],
        alarm_codes_containers: &pools[1],
        alarm_codes: &pools[2],
        alarm_messages_containers: &pools[3],
        alarm_messages: &pools[4],
        alarms,
    }
}

fn id(pools: &[List], pool: usize, slot: usize) -> WidgetId {
    WidgetId::new(pools[pool][slot].index())
}

fn codes(count: usize) -> Vec<AlarmCode> {
    (0..count).map(|n| AlarmCode::new(10 + n as u8, format!("alarm {}", n))).collect()
}

fn slots_in(commands: &[DrawCommand]) -> usize {
    commands
        .iter()
        .filter(|command| matches!(command.placement, Placement::StackedRightFrom { .. }))
        .count()
}

fn notices_in(commands: &[DrawCommand]) -> usize {
    commands
        .iter()
        .filter(|command| {
            matches!(&command.shape, Shape::Text { content, .. } if content == "There is no active alarm.")
        })
        .count()
}

fn white(alpha: u8) -> Rgba {
    Rgba { red: 255, green: 255, blue: 255, alpha }
}

fn container_command() -> DrawCommand {
    DrawCommand {
        id: WidgetId::new(901),
        shape: Shape::RoundedRectangle {
            width: 4050,
            height: 700,
            radius: 20,
            fill: Paint::Fixed(Rgba { red: 17, green: 17, blue: 17, alpha: 100 }),
        },
        placement: Placement::MidTopWithMarginOn { other: WidgetId::new(900), margin: 100 },
    }
}

fn title_command() -> DrawCommand {
    DrawCommand {
        id: WidgetId::new(902),
        shape: Shape::Text {
            content: "ALARMS".to_string(),
            style: TextStyle { font: Font::Bold, color: white(100), font_size: 11 },
        },
        placement: Placement::MidLeftWithMarginOn { other: WidgetId::new(901), margin: 270 },
    }
}

fn slot_commands(
    pools: &[List],
    slot: usize,
    from_end: i64,
    code: &str,
    description: &str,
    badge: Rgba,
    strip: Rgba,
) -> Vec<DrawCommand> {
    vec![
        DrawCommand {
            id: id(pools, 0, slot),
            shape: Shape::Canvas {
                size: None,
                fill: Paint::Fixed(Rgba { red: 0, green: 0, blue: 0, alpha: 0 }),
                borderless: true,
            },
            placement: Placement::StackedRightFrom {
                stack: WidgetId::new(901),
                from_end,
                other: WidgetId::new(902),
                offset: 280,
            },
        },
        DrawCommand {
            id: id(pools, 1, slot),
            shape: Shape::Canvas {
                size: Some((500, 220)),
                fill: Paint::Fixed(badge),
                borderless: true,
            },
            placement: Placement::StartOf { other: id(pools, 0, slot), inset: None },
        },
        DrawCommand {
            id: id(pools, 2, slot),
            shape: Shape::Text {
                content: code.to_string(),
                style: TextStyle { font: Font::Bold, color: white(100), font_size: 11 },
            },
            placement: Placement::MidTopWithMarginOn { other: id(pools, 1, slot), margin: 40 },
        },
        DrawCommand {
            id: id(pools, 3, slot),
            shape: Shape::Canvas {
                size: Some((3000, 220)),
                fill: Paint::Fixed(strip),
                borderless: true,
            },
            placement: Placement::StartOf { other: id(pools, 0, slot), inset: Some(500) },
        },
        DrawCommand {
            id: id(pools, 4, slot),
            shape: Shape::Text {
                content: description.to_string(),
                style: TextStyle { font: Font::Theme, color: white(100), font_size: 10 },
            },
            placement: Placement::TopLeftWithMarginsOn {
                other: id(pools, 3, slot),
                top: 40,
                left: 100,
            },
        },
    ]
}

#[test]
fn two_alarms_fill_two_slots() {
    let pools = pools(2);
    let first = AlarmCode::new(12, "Plateau pressure is not reached".to_string());
    let second = AlarmCode::new(7, "Battery low".to_string());
    let alarms = [(&first, &AlarmPriority::High), (&second, &AlarmPriority::Medium)];
    let mut widget = ControlWidget::new(environment(2));
    let width = widget.render(ControlWidgetType::Alarms(config(&pools, &alarms)));
    assert_eq!(width, 0);

    let mut expected = vec![container_command(), title_command()];
    expected.extend(slot_commands(
        &pools,
        0,
        100,
        "12",
        "Plateau pressure is not reached",
        Rgba { red: 255, green: 32, blue: 32, alpha: 100 },
        Rgba { red: 169, green: 35, blue: 35, alpha: 100 },
    ));
    expected.extend(slot_commands(
        &pools,
        1,
        360,
        "7",
        "Battery low",
        Rgba { red: 255, green: 138, blue: 0, alpha: 100 },
        Rgba { red: 169, green: 99, blue: 16, alpha: 100 },
    ));
    assert_eq!(widget.commands(), &expected);
}

#[test]
fn no_alarm_draws_the_notice_only() {
    let pools = pools(2);
    let mut widget = ControlWidget::new(environment(2));
    let width = widget.render(ControlWidgetType::Alarms(config(&pools, &[])));
    assert_eq!(width, 0);
    let expected = vec![
        container_command(),
        title_command(),
        DrawCommand {
            id: WidgetId::new(903),
            shape: Shape::Text {
                content: "There is no active alarm.".to_string(),
                style: TextStyle { font: Font::Theme, color: white(50), font_size: 11 },
            },
            placement: Placement::RightFrom { other: WidgetId::new(902), offset: 420 },
        },
    ];
    assert_eq!(widget.commands(), &expected);
}

#[test]
fn no_alarm_needs_no_pool() {
    let pools = pools(0);
    let mut widget = ControlWidget::new(environment(2));
    assert_eq!(widget.try_render(ControlWidgetType::Alarms(config(&pools, &[]))), Some(0));
    assert_eq!(widget.commands().len(), 3);
    assert_eq!(slots_in(widget.commands()), 0);
}

#[test]
fn five_alarms_show_the_first_two() {
    let pools = pools(2);
    let codes = codes(5);
    let priorities = [
        AlarmPriority::Low,
        AlarmPriority::High,
        AlarmPriority::Medium,
        AlarmPriority::High,
        AlarmPriority::Low,
    ];
    let alarms: Vec<(&AlarmCode, &AlarmPriority)> = codes.iter().zip(priorities.iter()).collect();
    let mut widget = ControlWidget::new(environment(2));
    let width = widget.try_render(ControlWidgetType::Alarms(config(&pools, &alarms)));
    assert_eq!(width, Some(0));

    let mut expected = vec![container_command(), title_command()];
    expected.extend(slot_commands(
        &pools,
        0,
        100,
        "10",
        "alarm 0",
        Rgba { red: 255, green: 195, blue: 0, alpha: 100 },
        Rgba { red: 174, green: 133, blue: 0, alpha: 100 },
    ));
    expected.extend(slot_commands(
        &pools,
        1,
        360,
        "11",
        "alarm 1",
        Rgba { red: 255, green: 32, blue: 32, alpha: 100 },
        Rgba { red: 169, green: 35, blue: 35, alpha: 100 },
    ));
    assert_eq!(widget.commands(), &expected);
}

#[test]
fn rendered_slots_follow_capacity() {
    let max_alarms = 3;
    for (active, shown) in [(0, 0), (1, 1), (3, 3), (8, 3)] {
        let pools = pools(max_alarms);
        let codes = codes(active);
        let alarms: Vec<(&AlarmCode, &AlarmPriority)> =
            codes.iter().map(|code| (code, &AlarmPriority::Medium)).collect();
        let mut widget = ControlWidget::new(environment(max_alarms));
        widget.render(ControlWidgetType::Alarms(config(&pools, &alarms)));
        assert_eq!(slots_in(widget.commands()), shown);
        let commands = if active == 0 { 3 } else { 2 + 5 * shown };
        assert_eq!(widget.commands().len(), commands);
    }
}

#[test]
fn notice_and_slots_exclude_each_other() {
    for active in 0..6 {
        let pools = pools(2);
        let codes = codes(active);
        let alarms: Vec<(&AlarmCode, &AlarmPriority)> =
            codes.iter().map(|code| (code, &AlarmPriority::Low)).collect();
        let mut widget = ControlWidget::new(environment(2));
        widget.render(ControlWidgetType::Alarms(config(&pools, &alarms)));
        let notices = notices_in(widget.commands());
        let slots = slots_in(widget.commands());
        assert_eq!(notices == 1, active == 0);
        assert_eq!(slots > 0, active > 0);
        assert!(notices == 0 || slots == 0);
    }
}

#[test]
fn description_like_the_notice_is_still_an_alarm() {
    let pools = pools(1);
    let code = AlarmCode::new(31, "There is no active alarm.".to_string());
    let alarms = [(&code, &AlarmPriority::High)];
    let mut widget = ControlWidget::new(environment(2));
    widget.render(ControlWidgetType::Alarms(config(&pools, &alarms)));
    assert_eq!(slots_in(widget.commands()), 1);
    assert!(widget.commands().iter().all(|command| command.id != WidgetId::new(903)));
}

#[test]
fn banner_without_capacity_draws_neither() {
    let pools = pools(0);
    let codes = codes(2);
    let alarms: Vec<(&AlarmCode, &AlarmPriority)> =
        codes.iter().map(|code| (code, &AlarmPriority::High)).collect();
    let mut widget = ControlWidget::new(environment(0));
    assert_eq!(widget.try_render(ControlWidgetType::Alarms(config(&pools, &alarms))), Some(0));
    assert_eq!(widget.commands(), &vec![container_command(), title_command()]);
}

#[test]
fn slot_identifiers_do_not_depend_on_the_alarm() {
    let pools = pools(2);
    let first = AlarmCode::new(12, "Plateau pressure is not reached".to_string());
    let second = AlarmCode::new(7, "Battery low".to_string());
    let third = AlarmCode::new(24, "Pressure too high".to_string());

    let before = [(&first, &AlarmPriority::High), (&second, &AlarmPriority::Medium)];
    let mut frame = ControlWidget::new(environment(2));
    frame.render(ControlWidgetType::Alarms(config(&pools, &before)));

    let after = [(&third, &AlarmPriority::Low), (&first, &AlarmPriority::High)];
    let mut next = ControlWidget::new(environment(2));
    next.render(ControlWidgetType::Alarms(config(&pools, &after)));

    for slot in 0..2 {
        for part in 0..5 {
            let at = 2 + 5 * slot + part;
            assert_eq!(frame.commands()[at].id, next.commands()[at].id);
            assert_eq!(frame.commands()[at].id, id(&pools, part, slot));
        }
    }
    assert_ne!(frame.commands()[4].shape, next.commands()[4].shape);
}

#[test]
fn slots_take_distinct_identifiers_from_each_pool() {
    let pools = pools(3);
    let codes = codes(3);
    let alarms: Vec<(&AlarmCode, &AlarmPriority)> =
        codes.iter().map(|code| (code, &AlarmPriority::High)).collect();
    let mut widget = ControlWidget::new(environment(3));
    widget.render(ControlWidgetType::Alarms(config(&pools, &alarms)));
    let mut seen: Vec<usize> = widget.commands()[2..].iter().map(|command| command.id.index).collect();
    seen.sort();
    seen.dedup();
    assert_eq!(seen.len(), 15);
    assert_ne!(widget.commands()[2].id, WidgetId::new(0));
    assert_ne!(widget.commands()[7].id, WidgetId::new(1));
}

#[test]
fn short_pool_is_refused() {
    let long = pools(2);
    let short = pools(1);
    let codes = codes(2);
    let alarms: Vec<(&AlarmCode, &AlarmPriority)> =
        codes.iter().map(|code| (code, &AlarmPriority::High)).collect();
    for lacking in 0..5 {
        let mut mixed: Vec<List> = long.clone();
        mixed[lacking] = short[lacking].clone();
        let config = config(&mixed, &alarms);
        assert!(config.pools_hold(1));
        assert!(!config.pools_hold(2));
        let mut widget = ControlWidget::new(environment(2));
        assert_eq!(widget.try_render(ControlWidgetType::Alarms(config)), None);
        assert!(widget.commands().is_empty());
    }
}

#[test]
fn pools_need_only_hold_what_is_shown() {
    let pools = pools(1);
    let codes = codes(1);
    let alarms: Vec<(&AlarmCode, &AlarmPriority)> =
        codes.iter().map(|code| (code, &AlarmPriority::High)).collect();
    let config = config(&pools, &alarms);
    assert!(config.pools_hold(0));
    assert!(config.pools_hold(1));
    let mut widget = ControlWidget::new(environment(2));
    assert_eq!(widget.try_render(ControlWidgetType::Alarms(config)), Some(0));
    assert_eq!(slots_in(widget.commands()), 1);
}

#[test]
fn single_renderers_draw_the_parts_of_a_slot() {
    let pools = pools(2);
    let code = AlarmCode::new(255, "Power cable unplugged".to_string());
    let alarms = [];
    let config = config(&pools, &alarms);
    let expected = slot_commands(
        &pools,
        1,
        360,
        "255",
        "Power cable unplugged",
        Rgba { red: 255, green: 195, blue: 0, alpha: 100 },
        Rgba { red: 174, green: 133, blue: 0, alpha: 100 },
    );

    let mut whole = ControlWidget::new(environment(2));
    whole.alarm(&config, &code, &AlarmPriority::Low, 1);
    assert_eq!(whole.commands(), &expected);

    let mut badge = ControlWidget::new(environment(2));
    badge.alarm_code(&config, &code, &AlarmPriority::Low, 1);
    assert_eq!(badge.commands()[..], expected[1..3]);

    let mut strip = ControlWidget::new(environment(2));
    strip.alarm_message(&config, &code, &AlarmPriority::Low, 1);
    assert_eq!(strip.commands()[..], expected[3..5]);
}

#[test]
fn renders_accumulate_in_order() {
    let pools = pools(2);
    let code = AlarmCode::new(12, "Plateau pressure is not reached".to_string());
    let alarms = [(&code, &AlarmPriority::High)];
    let mut widget = ControlWidget::new(environment(2));
    assert!(widget.commands().is_empty());
    widget.render(ControlWidgetType::Alarms(config(&pools, &[])));
    widget.render(ControlWidgetType::Alarms(config(&pools, &alarms)));
    assert_eq!(widget.commands().len(), 3 + 7);
    assert_eq!(notices_in(&widget.commands()[..3]), 1);
    assert_eq!(slots_in(&widget.commands()[3..]), 1);
}

fn anchors(placement: &Placement) -> Vec<WidgetId> {
    match *placement {
        Placement::MidTopWithMarginOn { other, .. }
        | Placement::MidLeftWithMarginOn { other, .. }
        | Placement::MidBottomWithMarginOn { other, .. }
        | Placement::TopLeftWithMarginsOn { other, .. }
        | Placement::BottomLeftWithMarginsOn { other, .. }
        | Placement::RightFrom { other, .. }
        | Placement::StartOf { other, .. }
        | Placement::MiddleOf { other } => vec![other],
        Placement::StackedRightFrom { stack, other, .. } => vec![stack, other],
        _ => Vec::new(),
    }
}

#[test]
fn commands_refer_to_what_was_drawn_before() {
    for active in 0..4 {
        let pools = pools(2);
        let codes = codes(active);
        let alarms: Vec<(&AlarmCode, &AlarmPriority)> =
            codes.iter().map(|code| (code, &AlarmPriority::Medium)).collect();
        let mut widget = ControlWidget::new(environment(2));
        widget.render(ControlWidgetType::Alarms(config(&pools, &alarms)));
        let commands = widget.commands();
        for (at, command) in commands.iter().enumerate() {
            for anchor in anchors(&command.placement) {
                let drawn = commands[..at].iter().any(|earlier| earlier.id == anchor);
                assert!(drawn || anchor == WidgetId::new(900));
            }
        }
    }
}
