//! What the widgets of fixed layout look like: the background, the logo, the
//! graph, the telemetry tiles, and the notices that cover the display.

use vstd::prelude::*;
use crate::color::{Paint, Rgba};
use crate::config::{
    BackgroundWidgetConfig, BrandingWidgetConfig, ErrorWidgetConfig, GraphWidgetConfig,
    InitializingWidgetConfig, NoDataWidgetConfig, StopWidgetConfig, TelemetryWidgetConfig,
};
use crate::draw::{DrawCommandView, Font, Placement, ShapeView, TextStyle};
use crate::environment::Environment;
use crate::text::{branding_line, error_report};

verus! {

/// Size of the line under the logo.
pub const BRANDING_FONT_SIZE: u32 = 10;

/// Opacity of the line under the logo, in percent.
pub const BRANDING_TEXT_ALPHA: u8 = 45;

/// Corner radius of a telemetry tile: 2.5 px.
pub const TELEMETRY_ROUND: i64 = 25;

/// Gap left of the three texts of a telemetry tile: 20 px.
pub const TELEMETRY_MARGIN_LEFT: i64 = 200;

/// Gap above the title of a telemetry tile: 10 px.
pub const TELEMETRY_TITLE_MARGIN_TOP: i64 = 100;

/// Gap below the unit of a telemetry tile: 12 px.
pub const TELEMETRY_UNIT_MARGIN_BOTTOM: i64 = 120;

/// Size of the title and of the unit of a telemetry tile.
pub const TELEMETRY_LABEL_FONT_SIZE: u32 = 11;

/// Size of the value of a telemetry tile.
pub const TELEMETRY_VALUE_FONT_SIZE: u32 = 17;

/// Opacity of the unit of a telemetry tile, in percent.
pub const TELEMETRY_UNIT_ALPHA: u8 = 20;

/// Size of the notices that fill the display.
pub const NOTICE_FONT_SIZE: u32 = 30;

/// By how much the rim of the stop notice is larger than the notice: 5 px.
pub const STOPPED_BORDERS: i64 = 50;

/// Size of the title of the stop notice.
pub const STOPPED_TITLE_FONT_SIZE: u32 = 18;

/// Size of the message of the stop notice.
pub const STOPPED_MESSAGE_FONT_SIZE: u32 = 13;

/// Opacity of the veil behind the stop notice and of its message, in percent.
pub const STOPPED_ALPHA: u8 = 75;

/// The background: a canvas in the caller's color.
pub open spec fn background(config: BackgroundWidgetConfig) -> Seq<DrawCommandView> {
    seq![
        DrawCommandView {
            id: config.id,
            shape: ShapeView::Canvas {
                size: None,
                fill: Paint::Supplied(config.color),
                borderless: false,
            },
            placement: Placement::Unplaced,
        },
    ]
}

/// The logo in the top left corner, and the two versions under it.
pub open spec fn branding(environment: Environment, config: BrandingWidgetConfig) -> Seq<
    DrawCommandView,
> {
    seq![
        DrawCommandView {
            id: config.ids.0,
            shape: ShapeView::Image {
                image: config.image,
                width: config.width as i64,
                height: config.height as i64,
            },
            placement: Placement::TopLeftWithMargins {
                top: environment.branding_image_margin_top as i64,
                left: environment.branding_image_margin_left as i64,
            },
        },
        DrawCommandView {
            id: config.ids.1,
            shape: ShapeView::Text {
                content: branding_line(config.version_firmware@, config.version_control@),
                style: TextStyle {
                    font: Font::Theme,
                    color: Rgba::white(BRANDING_TEXT_ALPHA),
                    font_size: BRANDING_FONT_SIZE,
                },
            },
            placement: Placement::TopLeftWithMargins {
                top: environment.branding_text_margin_top as i64,
                left: environment.branding_text_margin_left as i64,
            },
        },
    ]
}

/// The graph, centered above the bottom edge of its parent.
pub open spec fn graph(environment: Environment, config: GraphWidgetConfig) -> Seq<DrawCommandView> {
    seq![
        DrawCommandView {
            id: config.id,
            shape: ShapeView::Image {
                image: config.image,
                width: config.width as i64,
                height: config.height as i64,
            },
            placement: Placement::MidBottomWithMarginOn {
                other: config.parent,
                margin: environment.graph_draw_spacing_from_bottom as i64,
            },
        },
    ]
}

/// A telemetry tile: a rounded rectangle in the caller's color at the
/// caller's position, with the title at its top, the value in its middle and
/// the unit at its bottom.
pub open spec fn telemetry(environment: Environment, config: TelemetryWidgetConfig) -> Seq<
    DrawCommandView,
> {
    seq![
        DrawCommandView {
            id: config.ids.1,
            shape: ShapeView::RoundedRectangle {
                width: environment.telemetry_widget_size_width as i64,
                height: environment.telemetry_widget_size_height as i64,
                radius: TELEMETRY_ROUND,
                fill: Paint::Supplied(config.background_color),
            },
            placement: Placement::BottomLeftWithMarginsOn {
                other: config.ids.0,
                bottom: config.y_position as i64,
                left: (config.x_position + environment.telemetry_widget_size_spacing) as i64,
            },
        },
        DrawCommandView {
            id: config.ids.2,
            shape: ShapeView::Text {
                content: config.title@,
                style: TextStyle {
                    font: Font::Theme,
                    color: Rgba::white(100),
                    font_size: TELEMETRY_LABEL_FONT_SIZE,
                },
            },
            placement: Placement::TopLeftWithMarginsOn {
                other: config.ids.1,
                top: TELEMETRY_TITLE_MARGIN_TOP,
                left: TELEMETRY_MARGIN_LEFT,
            },
        },
        DrawCommandView {
            id: config.ids.3,
            shape: ShapeView::Text {
                content: config.value@,
                style: TextStyle {
                    font: Font::Bold,
                    color: Rgba::white(100),
                    font_size: TELEMETRY_VALUE_FONT_SIZE,
                },
            },
            placement: Placement::MidLeftWithMarginOn {
                other: config.ids.1,
                margin: TELEMETRY_MARGIN_LEFT,
            },
        },
        DrawCommandView {
            id: config.ids.4,
            shape: ShapeView::Text {
                content: config.unit@,
                style: TextStyle {
                    font: Font::Theme,
                    color: Rgba::white(TELEMETRY_UNIT_ALPHA),
                    font_size: TELEMETRY_LABEL_FONT_SIZE,
                },
            },
            placement: Placement::BottomLeftWithMarginsOn {
                other: config.ids.1,
                bottom: TELEMETRY_UNIT_MARGIN_BOTTOM,
                left: TELEMETRY_MARGIN_LEFT,
            },
        },
    ]
}

/// The report of an error, from the top of the display.
pub open spec fn error(config: ErrorWidgetConfig) -> Seq<DrawCommandView> {
    seq![
        DrawCommandView {
            id: config.id,
            shape: ShapeView::Text {
                content: error_report(config.error@),
                style: TextStyle {
                    font: Font::Bold,
                    color: Rgba::white(100),
                    font_size: NOTICE_FONT_SIZE,
                },
            },
            placement: Placement::AlignTop,
        },
    ]
}

/// The stop notice: a dark veil over everything below the alarm banner, and
/// in the middle of the parent a box with a rim, a title and a message.
pub open spec fn stop(environment: Environment, config: StopWidgetConfig) -> Seq<DrawCommandView> {
    seq![
        DrawCommandView {
            id: config.background,
            shape: ShapeView::Canvas {
                size: Some(
                    (
                        environment.window_size_width as i64,
                        (environment.window_size_height - environment.alarm_container_height) as i64,
                    ),
                ),
                fill: Paint::Fixed(Rgba::black(STOPPED_ALPHA)),
                borderless: true,
            },
            placement: Placement::Absolute {
                x: 0,
                y: (-environment.alarm_container_height) as i64,
            },
        },
        DrawCommandView {
            id: config.container_borders,
            shape: ShapeView::RoundedRectangle {
                width: (environment.stopped_message_container_width + STOPPED_BORDERS) as i64,
                height: (environment.stopped_message_container_height + STOPPED_BORDERS) as i64,
                radius: environment.rounded_rectangles_round as i64,
                fill: Paint::Fixed(Rgba::solid(81, 81, 81)),
            },
            placement: Placement::MiddleOf { other: config.parent },
        },
        DrawCommandView {
            id: config.container,
            shape: ShapeView::Canvas {
                size: Some(
                    (
                        environment.stopped_message_container_width as i64,
                        environment.stopped_message_container_height as i64,
                    ),
                ),
                fill: Paint::Fixed(Rgba::solid(26, 26, 26)),
                borderless: true,
            },
            placement: Placement::MiddleOf { other: config.container_borders },
        },
        DrawCommandView {
            id: config.title,
            shape: ShapeView::Text {
                content: "Ventilator unit inactive"@,
                style: TextStyle {
                    font: Font::Bold,
                    color: Rgba::white(100),
                    font_size: STOPPED_TITLE_FONT_SIZE,
                },
            },
            placement: Placement::MidTopWithMarginOn {
                other: config.container,
                margin: environment.stopped_message_padding_top as i64,
            },
        },
        DrawCommandView {
            id: config.message,
            shape: ShapeView::Text {
                content: "Please re-enable it to resume respiration"@,
                style: TextStyle {
                    font: Font::Regular,
                    color: Rgba::white(STOPPED_ALPHA),
                    font_size: STOPPED_MESSAGE_FONT_SIZE,
                },
            },
            placement: Placement::MidBottomWithMarginOn {
                other: config.container,
                margin: environment.stopped_message_padding_bottom as i64,
            },
        },
    ]
}

/// The notice that no data arrives, in the middle of the display.
pub open spec fn no_data(config: NoDataWidgetConfig) -> Seq<DrawCommandView> {
    seq![
        DrawCommandView {
            id: config.id,
            shape: ShapeView::Text {
                content: "Device disconnected or no data received"@,
                style: TextStyle {
                    font: Font::Bold,
                    color: Rgba::white(100),
                    font_size: NOTICE_FONT_SIZE,
                },
            },
            placement: Placement::Middle,
        },
    ]
}

/// The picture shown while the display starts, in the middle of the display.
pub open spec fn initializing(config: InitializingWidgetConfig) -> Seq<DrawCommandView> {
    seq![
        DrawCommandView {
            id: config.id,
            shape: ShapeView::Image {
                image: config.image,
                width: config.width as i64,
                height: config.height as i64,
            },
            placement: Placement::Middle,
        },
    ]
}

} // verus!
