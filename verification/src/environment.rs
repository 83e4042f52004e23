//! The display's fixed measures, and the geometry of the alarm banner that
//! follows from them.

use vstd::prelude::*;
use crate::color::Rgba;

verus! {

/// The measures that the renderers lay the display out by. Lengths count in
/// tenths of a pixel.
#[derive(Clone, Copy, Debug, PartialEq, Eq, Structural)]
pub struct Environment {
    /// Size of the display's window.
    pub window_size_width: i32,
    pub window_size_height: i32,
    /// Corner radius of the display's rounded rectangles.
    pub rounded_rectangles_round: i32,
    /// Size of the alarm banner.
    pub alarm_container_width: i32,
    pub alarm_container_height: i32,
    /// Gap between the banner's left edge and its title.
    pub alarm_container_padding_left: i32,
    /// Color of the alarm banner.
    pub alarm_container_color: Rgba,
    /// Size of the strip that shows an alarm's description. Its height is
    /// the height of a slot.
    pub alarm_message_width: i32,
    pub alarm_message_height: i32,
    /// Distance of the first slot from the end edge of the banner.
    pub alarm_message_spacing_top_initial: i32,
    /// Gap between two slots.
    pub alarm_message_spacing_top_inner: i32,
    /// Size of the badge that shows an alarm's number.
    pub alarm_code_width: i32,
    pub alarm_code_height: i32,
    /// How many alarms the banner shows at most.
    pub max_alarms: usize,
    /// Size of the stop notice.
    pub stopped_message_container_width: i32,
    pub stopped_message_container_height: i32,
    /// Gaps above the title and below the message of the stop notice.
    pub stopped_message_padding_top: i32,
    pub stopped_message_padding_bottom: i32,
    /// Where the logo goes.
    pub branding_image_margin_top: i32,
    pub branding_image_margin_left: i32,
    /// Where the line under the logo goes.
    pub branding_text_margin_top: i32,
    pub branding_text_margin_left: i32,
    /// Gap between the graph and the bottom edge of its parent.
    pub graph_draw_spacing_from_bottom: i32,
    /// Size of a telemetry tile, and the gap left of it.
    pub telemetry_widget_size_width: i32,
    pub telemetry_widget_size_height: i32,
    pub telemetry_widget_size_spacing: i32,
}

impl Environment {
    /// Distance between the offsets of two neighbouring alarm slots: the
    /// height of a slot and the gap that follows it.
    pub open spec fn slot_pitch(self) -> int {
        self.alarm_message_height + self.alarm_message_spacing_top_inner
    }

    /// Distance of alarm slot `index` from the end edge of the banner.
    pub open spec fn spec_slot_offset(self, index: nat) -> int {
        if index == 0 {
            self.alarm_message_spacing_top_initial as int
        } else {
            self.alarm_message_spacing_top_initial + index * self.slot_pitch()
        }
    }

    /// How many of `active` alarms the banner shows: all of them up to its
    /// capacity, and no more.
    pub open spec fn spec_visible_alarms(self, active: nat) -> nat {
        if active <= self.max_alarms {
            active
        } else {
            self.max_alarms as nat
        }
    }

    /// Whether the offset of slot `index` is a length that a draw command
    /// can hold.
    pub open spec fn offset_in_range(self, index: nat) -> bool {
        i64::MIN <= self.spec_slot_offset(index) <= i64::MAX
    }

    /// The offsets of the slots before a slot lie between the offset of the
    /// first slot and that slot's own: where the one can be held, so can the
    /// others.
    pub proof fn lemma_offsets_in_range(self, index: nat, last: nat)
        requires
            index <= last,
            self.offset_in_range(last),
        ensures
            self.offset_in_range(index),
    {
        let pitch = self.slot_pitch();
        let far = last as int;
        let at = index as int;
        assert(pitch >= 0 ==> 0 <= at * pitch <= far * pitch) by (nonlinear_arith)
            requires
                0 <= at <= far,
        ;
        assert(pitch <= 0 ==> far * pitch <= at * pitch <= 0) by (nonlinear_arith)
            requires
                0 <= at <= far,
        ;
    }

    /// Tells whether the offset of slot `index` is a length that a draw
    /// command can hold.
    pub fn slot_offset_in_range(&self, index: usize) -> (fits: bool)
        ensures
            fits == self.offset_in_range(index as nat),
    {
        let steps: i128 = index as i128;
        let pitch: i128 = self.alarm_message_height as i128
            + self.alarm_message_spacing_top_inner as i128;
        assert(-0x1_0000_0000_0000_0000_0000_0000 <= steps * pitch
            <= 0x1_0000_0000_0000_0000_0000_0000) by (nonlinear_arith)
            requires
                0 <= steps <= 0xffff_ffff_ffff_ffff,
                -0x1_0000_0000 <= pitch <= 0x1_0000_0000,
        ;
        assert(steps == 0 ==> steps * pitch == 0) by (nonlinear_arith);
        let offset: i128 = self.alarm_message_spacing_top_initial as i128 + steps * pitch;
        -0x8000_0000_0000_0000 <= offset && offset <= 0x7fff_ffff_ffff_ffff
    }

    /// How many of `active` alarms the banner shows.
    pub fn visible_alarms(&self, active: usize) -> (visible: usize)
        ensures
            visible == self.spec_visible_alarms(active as nat),
    {
        if active <= self.max_alarms {
            active
        } else {
            self.max_alarms
        }
    }

    /// Distance of alarm slot `index` from the end edge of the banner.
    pub fn slot_offset(&self, index: usize) -> (offset: i64)
        requires
            self.offset_in_range(index as nat),
        ensures
            offset == self.spec_slot_offset(index as nat),
    {
        if index == 0 {
            self.alarm_message_spacing_top_initial as i64
        } else {
            let pitch: i128 = self.alarm_message_height as i128
                + self.alarm_message_spacing_top_inner as i128;
            let steps: i128 = index as i128;
            assert(-0x1_0000_0000_0000_0000_0000_0000 <= steps * pitch
                <= 0x1_0000_0000_0000_0000_0000_0000) by (nonlinear_arith)
                requires
                    0 <= steps <= 0xffff_ffff_ffff_ffff,
                    -0x1_0000_0000 <= pitch <= 0x1_0000_0000,
            ;
            let offset: i128 = self.alarm_message_spacing_top_initial as i128 + steps * pitch;
            offset as i64
        }
    }
}

} // verus!
