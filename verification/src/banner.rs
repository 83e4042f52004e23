//! What the alarm banner looks like.
//!
//! The banner is a container with a title and, to the right of the title,
//! either a notice that nothing is wrong or a column of alarm slots. A slot
//! is a transparent canvas that carries a badge with the alarm's number and a
//! strip with its description. Slot `i` takes its five identifiers from
//! position `i` of the five pools, whatever alarm it shows.

use vstd::prelude::*;
use crate::alarm::{code_color, message_color, AlarmCode, AlarmPriority};
use crate::color::{Paint, Rgba};
use crate::config::AlarmsWidgetConfig;
use crate::draw::{DrawCommandView, Font, Placement, ShapeView, TextStyle};
use crate::environment::Environment;
use crate::ids::pool_id;
use crate::text::decimal;

verus! {

/// Gap between the banner and the top of the element it sits on: 10 px.
pub const CONTAINER_MARGIN_TOP: i64 = 100;

/// Gap between the title and the notice that nothing is wrong: 42 px.
pub const NOTICE_OFFSET: i64 = 420;

/// Gap between the title and the column of slots: 28 px.
pub const SLOT_OFFSET: i64 = 280;

/// Gap above an alarm's number inside its badge: 4 px.
pub const CODE_MARGIN_TOP: i64 = 40;

/// Gap above an alarm's description inside its strip: 4 px.
pub const MESSAGE_MARGIN_TOP: i64 = 40;

/// Gap left of an alarm's description inside its strip: 10 px.
pub const MESSAGE_MARGIN_LEFT: i64 = 100;

/// Size of the banner's title, of its notice and of an alarm's number.
pub const TITLE_FONT_SIZE: u32 = 11;

/// Size of an alarm's description.
pub const MESSAGE_FONT_SIZE: u32 = 10;

/// The banner's container.
pub open spec fn container(environment: Environment, config: AlarmsWidgetConfig) -> DrawCommandView {
    DrawCommandView {
        id: config.container,
        shape: ShapeView::RoundedRectangle {
            width: environment.alarm_container_width as i64,
            height: environment.alarm_container_height as i64,
            radius: environment.rounded_rectangles_round as i64,
            fill: Paint::Fixed(environment.alarm_container_color),
        },
        placement: Placement::MidTopWithMarginOn {
            other: config.parent,
            margin: CONTAINER_MARGIN_TOP,
        },
    }
}

/// The banner's title.
pub open spec fn title(environment: Environment, config: AlarmsWidgetConfig) -> DrawCommandView {
    DrawCommandView {
        id: config.title,
        shape: ShapeView::Text {
            content: "ALARMS"@,
            style: TextStyle {
                font: Font::Bold,
                color: Rgba::white(100),
                font_size: TITLE_FONT_SIZE,
            },
        },
        placement: Placement::MidLeftWithMarginOn {
            other: config.container,
            margin: environment.alarm_container_padding_left as i64,
        },
    }
}

/// The dimmed notice that stands in for the slots while no alarm is active.
pub open spec fn notice(config: AlarmsWidgetConfig) -> DrawCommandView {
    DrawCommandView {
        id: config.empty,
        shape: ShapeView::Text {
            content: "There is no active alarm."@,
            style: TextStyle {
                font: Font::Theme,
                color: Rgba::white(50),
                font_size: TITLE_FONT_SIZE,
            },
        },
        placement: Placement::RightFrom { other: config.title, offset: NOTICE_OFFSET },
    }
}

/// The transparent canvas of slot `index`, stacked in the container at the
/// slot's offset.
pub open spec fn slot_canvas(
    environment: Environment,
    config: AlarmsWidgetConfig,
    index: nat,
) -> DrawCommandView {
    DrawCommandView {
        id: pool_id(*config.alarm_widgets, index as int),
        shape: ShapeView::Canvas {
            size: None,
            fill: Paint::Fixed(Rgba::black(0)),
            borderless: true,
        },
        placement: Placement::StackedRightFrom {
            stack: config.container,
            from_end: environment.spec_slot_offset(index) as i64,
            other: config.title,
            offset: SLOT_OFFSET,
        },
    }
}

/// The badge of slot `index`, in the color of the alarm's severity.
pub open spec fn code_badge(
    environment: Environment,
    config: AlarmsWidgetConfig,
    priority: AlarmPriority,
    index: nat,
) -> DrawCommandView {
    DrawCommandView {
        id: pool_id(*config.alarm_codes_containers, index as int),
        shape: ShapeView::Canvas {
            size: Some(
                (environment.alarm_code_width as i64, environment.alarm_code_height as i64),
            ),
            fill: Paint::Fixed(code_color(priority)),
            borderless: true,
        },
        placement: Placement::StartOf {
            other: pool_id(*config.alarm_widgets, index as int),
            inset: None,
        },
    }
}

/// The alarm's number on the badge of slot `index`.
pub open spec fn code_label(config: AlarmsWidgetConfig, code: AlarmCode, index: nat) -> DrawCommandView {
    DrawCommandView {
        id: pool_id(*config.alarm_codes, index as int),
        shape: ShapeView::Text {
            content: decimal(code.code as nat),
            style: TextStyle {
                font: Font::Bold,
                color: Rgba::white(100),
                font_size: TITLE_FONT_SIZE,
            },
        },
        placement: Placement::MidTopWithMarginOn {
            other: pool_id(*config.alarm_codes_containers, index as int),
            margin: CODE_MARGIN_TOP,
        },
    }
}

/// The strip of slot `index`, right after the badge, in the darker color of
/// the alarm's severity.
pub open spec fn message_strip(
    environment: Environment,
    config: AlarmsWidgetConfig,
    priority: AlarmPriority,
    index: nat,
) -> DrawCommandView {
    DrawCommandView {
        id: pool_id(*config.alarm_messages_containers, index as int),
        shape: ShapeView::Canvas {
            size: Some(
                (environment.alarm_message_width as i64, environment.alarm_message_height as i64),
            ),
            fill: Paint::Fixed(message_color(priority)),
            borderless: true,
        },
        placement: Placement::StartOf {
            other: pool_id(*config.alarm_widgets, index as int),
            inset: Some(environment.alarm_code_width as i64),
        },
    }
}

/// The alarm's description on the strip of slot `index`.
pub open spec fn message_label(
    config: AlarmsWidgetConfig,
    code: AlarmCode,
    index: nat,
) -> DrawCommandView {
    DrawCommandView {
        id: pool_id(*config.alarm_messages, index as int),
        shape: ShapeView::Text {
            content: code.description@,
            style: TextStyle {
                font: Font::Theme,
                color: Rgba::white(100),
                font_size: MESSAGE_FONT_SIZE,
            },
        },
        placement: Placement::TopLeftWithMarginsOn {
            other: pool_id(*config.alarm_messages_containers, index as int),
            top: MESSAGE_MARGIN_TOP,
            left: MESSAGE_MARGIN_LEFT,
        },
    }
}

/// The five commands that draw one alarm in slot `index`: the canvas first,
/// since the badge and the strip are placed on it, then each of the two with
/// its text.
pub open spec fn slot(
    environment: Environment,
    config: AlarmsWidgetConfig,
    code: AlarmCode,
    priority: AlarmPriority,
    index: nat,
) -> Seq<DrawCommandView> {
    seq![
        slot_canvas(environment, config, index),
        code_badge(environment, config, priority, index),
        code_label(config, code, index),
        message_strip(environment, config, priority, index),
        message_label(config, code, index),
    ]
}

/// The commands that draw the first `count` alarms of the configuration,
/// alarm `i` in slot `i`.
pub open spec fn slots(environment: Environment, config: AlarmsWidgetConfig, count: nat) -> Seq<
    DrawCommandView,
>
    decreases count,
{
    if count == 0 {
        Seq::empty()
    } else {
        let last = (count - 1) as nat;
        slots(environment, config, last) + slot(
            environment,
            config,
            *config.alarms@[last as int].0,
            *config.alarms@[last as int].1,
            last,
        )
    }
}

/// The commands that draw the whole banner: the container, the title, and
/// then the notice if no alarm is active, else a slot for each alarm that the
/// banner has room for. Alarms beyond the banner's capacity are not drawn.
pub open spec fn banner(environment: Environment, config: AlarmsWidgetConfig) -> Seq<DrawCommandView> {
    let frame = seq![container(environment, config), title(environment, config)];
    if config.alarms@.len() == 0 {
        frame.push(notice(config))
    } else {
        frame + slots(
            environment,
            config,
            environment.spec_visible_alarms(config.alarms@.len()),
        )
    }
}

/// Whether the banner can be drawn: each of the five pools holds an
/// identifier for every slot that the banner has to fill, and the offset of
/// the last of these slots is a length that a draw command can hold.
pub open spec fn drawable(environment: Environment, config: AlarmsWidgetConfig) -> bool {
    let visible = environment.spec_visible_alarms(config.alarms@.len());
    &&& config.spec_pools_hold(visible)
    &&& visible > 0 ==> environment.offset_in_range((visible - 1) as nat)
}

/// Whether a command draws the canvas of a slot: no other command stacks its
/// element in the container.
pub open spec fn is_slot_canvas(command: DrawCommandView) -> bool {
    command.placement is StackedRightFrom
}

/// How many slots a list of commands draws.
pub open spec fn slot_count(drawing: Seq<DrawCommandView>) -> nat
    decreases drawing.len(),
{
    if drawing.len() == 0 {
        0
    } else if is_slot_canvas(drawing.last()) {
        slot_count(drawing.drop_last()) + 1
    } else {
        slot_count(drawing.drop_last())
    }
}

/// The slots of two lists drawn one after the other are those of the first
/// and those of the second.
pub proof fn lemma_slot_count_add(first: Seq<DrawCommandView>, second: Seq<DrawCommandView>)
    ensures
        slot_count(first + second) == slot_count(first) + slot_count(second),
    decreases second.len(),
{
    if second.len() == 0 {
        assert(first + second =~= first);
    } else {
        lemma_slot_count_add(first, second.drop_last());
        assert((first + second).drop_last() =~= first + second.drop_last());
    }
}

/// The commands of one alarm draw one slot.
pub proof fn lemma_slot_count_slot(
    environment: Environment,
    config: AlarmsWidgetConfig,
    code: AlarmCode,
    priority: AlarmPriority,
    index: nat,
)
    ensures
        slot_count(slot(environment, config, code, priority, index)) == 1,
{
    let five = slot(environment, config, code, priority, index);
    let four = five.drop_last();
    let three = four.drop_last();
    let two = three.drop_last();
    let one = two.drop_last();
    assert(slot_count(one.drop_last()) == 0);
    assert(one.last() == five[0]);
    assert(slot_count(one) == 1);
    assert(two.last() == five[1]);
    assert(three.last() == five[2]);
    assert(four.last() == five[3]);
    assert(five.last() == five[4]);
    assert(slot_count(two) == 1);
    assert(slot_count(three) == 1);
    assert(slot_count(four) == 1);
}

/// The first `count` alarms take five commands each and draw `count` slots.
pub proof fn lemma_slots_len(environment: Environment, config: AlarmsWidgetConfig, count: nat)
    ensures
        slots(environment, config, count).len() == 5 * count,
        slot_count(slots(environment, config, count)) == count,
    decreases count,
{
    if count > 0 {
        let last = (count - 1) as nat;
        lemma_slots_len(environment, config, last);
        let code = *config.alarms@[last as int].0;
        let priority = *config.alarms@[last as int].1;
        lemma_slot_count_slot(environment, config, code, priority, last);
        lemma_slot_count_add(
            slots(environment, config, last),
            slot(environment, config, code, priority, last),
        );
    }
}

/// Where the five commands of slot `index` begin among the commands of the
/// slots.
pub open spec fn slot_position(index: nat) -> int {
    5 * (index as int)
}

/// Among the commands of the first `count` alarms, those of alarm `index`
/// are the five from the slot's position on, and draw that alarm in slot
/// `index`.
pub proof fn lemma_slots_at(
    environment: Environment,
    config: AlarmsWidgetConfig,
    count: nat,
    index: nat,
)
    requires
        index < count,
    ensures
        slot_position(index) + 5 <= slots(environment, config, count).len(),
        slots(environment, config, count).subrange(slot_position(index), slot_position(index) + 5) == slot(
            environment,
            config,
            *config.alarms@[index as int].0,
            *config.alarms@[index as int].1,
            index,
        ),
    decreases count,
{
    let last = (count - 1) as nat;
    let before = slots(environment, config, last);
    let added = slot(
        environment,
        config,
        *config.alarms@[last as int].0,
        *config.alarms@[last as int].1,
        last,
    );
    lemma_slots_len(environment, config, last);
    lemma_slots_len(environment, config, count);
    if index == last {
        assert((before + added).subrange(slot_position(index), slot_position(index) + 5) =~= added);
    } else {
        lemma_slots_at(environment, config, last, index);
        assert((before + added).subrange(slot_position(index), slot_position(index) + 5) =~= before.subrange(
            slot_position(index),
            slot_position(index) + 5,
        ));
    }
}

/// The notice is none of the commands that draw alarms.
pub proof fn lemma_slots_without_notice(
    environment: Environment,
    config: AlarmsWidgetConfig,
    count: nat,
)
    ensures
        !slots(environment, config, count).contains(notice(config)),
    decreases count,
{
    if count > 0 {
        let last = (count - 1) as nat;
        lemma_slots_without_notice(environment, config, last);
        let before = slots(environment, config, last);
        let added = slot(
            environment,
            config,
            *config.alarms@[last as int].0,
            *config.alarms@[last as int].1,
            last,
        );
        assert forall|k: int| 0 <= k < (before + added).len() implies (before + added)[k]
            != notice(config) by {
            if k < before.len() {
                assert(before.contains(before[k]));
            } else {
                let part = k - before.len();
                assert((before + added)[k] == added[part]);
            }
        }
    }
}

/// In a banner with active alarms, the five commands of each slot that is
/// shown follow the container and the title in the order of the slots, and
/// slot `index` shows alarm `index`.
pub proof fn lemma_banner_slot(environment: Environment, config: AlarmsWidgetConfig, index: nat)
    requires
        index < environment.spec_visible_alarms(config.alarms@.len()),
    ensures
        2 + slot_position(index) + 5 <= banner(environment, config).len(),
        banner(environment, config).subrange(
            2 + slot_position(index),
            2 + slot_position(index) + 5,
        ) == slot(
            environment,
            config,
            *config.alarms@[index as int].0,
            *config.alarms@[index as int].1,
            index,
        ),
{
    let visible = environment.spec_visible_alarms(config.alarms@.len());
    let frame = seq![container(environment, config), title(environment, config)];
    let shown = slots(environment, config, visible);
    lemma_slots_at(environment, config, visible, index);
    assert((frame + shown).subrange(2 + slot_position(index), 2 + slot_position(index) + 5)
        =~= shown.subrange(slot_position(index), slot_position(index) + 5));
}

} // verus!
