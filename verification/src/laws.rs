//! What holds of every banner, whatever the alarms and the measures.

use vstd::prelude::*;
use crate::banner::{
    banner, container, lemma_banner_slot, lemma_slot_count_add, lemma_slots_len,
    lemma_slots_without_notice, notice, slot, slot_count, slot_position, slots, title,
};
use crate::config::AlarmsWidgetConfig;
use crate::environment::Environment;
use crate::ids::{pool_id, pool_ids, WidgetId};

verus! {

/// Capacity: the banner draws one slot for each active alarm up to its
/// capacity, and none beyond. With no alarm it draws three commands, else
/// five for each slot after the container and the title.
pub proof fn lemma_capacity(environment: Environment, config: AlarmsWidgetConfig)
    ensures
        slot_count(banner(environment, config)) == vstd::math::min(
            config.alarms@.len() as int,
            environment.max_alarms as int,
        ),
        banner(environment, config).len() == if config.alarms@.len() == 0 {
            3
        } else {
            2 + 5 * vstd::math::min(config.alarms@.len() as int, environment.max_alarms as int)
        },
{
    let visible = environment.spec_visible_alarms(config.alarms@.len());
    let frame = seq![container(environment, config), title(environment, config)];
    assert(slot_count(frame) == 0) by {
        assert(frame.drop_last().last() == frame[0]);
        assert(slot_count(frame.drop_last().drop_last()) == 0);
        assert(slot_count(frame.drop_last()) == 0);
    }
    if config.alarms@.len() == 0 {
        assert(frame.push(notice(config)).drop_last() =~= frame);
    } else {
        lemma_slots_len(environment, config, visible);
        lemma_slot_count_add(frame, slots(environment, config, visible));
    }
}

/// The notice is drawn if and only if no alarm is active, and never together
/// with a slot.
pub proof fn lemma_notice_iff_empty(environment: Environment, config: AlarmsWidgetConfig)
    ensures
        banner(environment, config).contains(notice(config)) <==> config.alarms@.len() == 0,
        !(banner(environment, config).contains(notice(config)) && slot_count(
            banner(environment, config),
        ) > 0),
{
    let visible = environment.spec_visible_alarms(config.alarms@.len());
    let frame = seq![container(environment, config), title(environment, config)];
    let drawn = banner(environment, config);
    lemma_capacity(environment, config);
    if config.alarms@.len() == 0 {
        assert(drawn[2] == notice(config));
    } else {
        let shown = slots(environment, config, visible);
        lemma_slots_without_notice(environment, config, visible);
        assert forall|k: int| 0 <= k < drawn.len() implies drawn[k] != notice(config) by {
            if k >= 2 {
                assert(drawn[k] == shown[k - 2]);
                assert(shown.contains(shown[k - 2]));
            }
        }
    }
}

/// In a banner that has room for an alarm at all, slots are drawn if and
/// only if an alarm is active.
pub proof fn lemma_slots_iff_populated(environment: Environment, config: AlarmsWidgetConfig)
    requires
        environment.max_alarms > 0,
    ensures
        slot_count(banner(environment, config)) > 0 <==> config.alarms@.len() > 0,
{
    lemma_capacity(environment, config);
}

/// Geometry: the offset of a slot is the initial spacing and one pitch for
/// each slot before it, the first slot included, so that each slot lies one
/// pitch after the one before.
pub proof fn lemma_slot_pitch(environment: Environment, index: nat)
    ensures
        environment.spec_slot_offset(index)
            == environment.alarm_message_spacing_top_initial + index * environment.slot_pitch(),
        environment.spec_slot_offset(index + 1) - environment.spec_slot_offset(index)
            == environment.alarm_message_height + environment.alarm_message_spacing_top_inner,
{
    let pitch = environment.slot_pitch();
    assert((index + 1) * pitch - index * pitch == pitch) by (nonlinear_arith);
    assert(0 * pitch == 0) by (nonlinear_arith);
}

/// A slot takes its five identifiers from its own position in the five
/// pools: the canvas, the badge, the number, the strip and the description,
/// in this order.
pub proof fn lemma_slot_identifiers(environment: Environment, config: AlarmsWidgetConfig, index: nat)
    requires
        index < environment.spec_visible_alarms(config.alarms@.len()),
    ensures
        2 + slot_position(index) + 5 <= banner(environment, config).len(),
        banner(environment, config)[2 + slot_position(index)].id == pool_id(
            *config.alarm_widgets,
            index as int,
        ),
        banner(environment, config)[2 + slot_position(index) + 1].id == pool_id(
            *config.alarm_codes_containers,
            index as int,
        ),
        banner(environment, config)[2 + slot_position(index) + 2].id == pool_id(
            *config.alarm_codes,
            index as int,
        ),
        banner(environment, config)[2 + slot_position(index) + 3].id == pool_id(
            *config.alarm_messages_containers,
            index as int,
        ),
        banner(environment, config)[2 + slot_position(index) + 4].id == pool_id(
            *config.alarm_messages,
            index as int,
        ),
{
    lemma_banner_slot(environment, config, index);
    let start = 2 + slot_position(index);
    let drawn = banner(environment, config);
    let five = drawn.subrange(start, start + 5);
    assert(five[0] == drawn[start]);
    assert(five[1] == drawn[start + 1]);
    assert(five[2] == drawn[start + 2]);
    assert(five[3] == drawn[start + 3]);
    assert(five[4] == drawn[start + 4]);
}

/// Identifier stability: two banners drawn from the same pools give a slot
/// that both show the same five identifiers, whatever alarms they show.
pub proof fn lemma_identifiers_stable(
    environment: Environment,
    first: AlarmsWidgetConfig,
    second: AlarmsWidgetConfig,
    index: nat,
)
    requires
        pool_ids(*first.alarm_widgets) == pool_ids(*second.alarm_widgets),
        pool_ids(*first.alarm_codes_containers) == pool_ids(*second.alarm_codes_containers),
        pool_ids(*first.alarm_codes) == pool_ids(*second.alarm_codes),
        pool_ids(*first.alarm_messages_containers) == pool_ids(
            *second.alarm_messages_containers,
        ),
        pool_ids(*first.alarm_messages) == pool_ids(*second.alarm_messages),
        index < environment.spec_visible_alarms(first.alarms@.len()),
        index < environment.spec_visible_alarms(second.alarms@.len()),
    ensures
        forall|part: int|
            0 <= part < 5 ==> (#[trigger] banner(environment, first)[2 + slot_position(index)
                + part]).id == banner(environment, second)[2 + slot_position(index) + part].id,
{
    lemma_slot_identifiers(environment, first, index);
    lemma_slot_identifiers(environment, second, index);
}

/// Order: whatever a command of the banner is placed relative to has been
/// drawn by an earlier command of the banner, but for the banner's parent,
/// which the caller draws.
pub proof fn lemma_anchors_drawn_before(
    environment: Environment,
    config: AlarmsWidgetConfig,
    at: int,
    anchor: WidgetId,
)
    requires
        0 <= at < banner(environment, config).len(),
        banner(environment, config)[at].placement.anchors().contains(anchor),
    ensures
        anchor == config.parent || exists|before: int|
            0 <= before < at && #[trigger] banner(environment, config)[before].id == anchor,
{
    let drawn = banner(environment, config);
    lemma_capacity(environment, config);
    if at == 0 {
    } else if at == 1 {
        assert(drawn[0].id == anchor);
    } else if config.alarms@.len() == 0 {
        assert(drawn[1].id == anchor);
    } else {
        let index = ((at - 2) / 5) as nat;
        let part = (at - 2) % 5;
        let start = 2 + slot_position(index);
        assert(at == start + part);
        lemma_banner_slot(environment, config, index);
        let five = drawn.subrange(start, start + 5);
        assert(five[part] == drawn[at]);
        assert(five[0] == drawn[start]);
        assert(five[1] == drawn[start + 1]);
        assert(five[3] == drawn[start + 3]);
        if part == 0 {
            assert(drawn[0].id == anchor || drawn[1].id == anchor);
        } else if part == 1 || part == 3 {
            assert(drawn[start].id == anchor);
        } else if part == 2 {
            assert(drawn[start + 1].id == anchor);
        } else {
            assert(drawn[start + 3].id == anchor);
        }
    }
}

} // verus!
