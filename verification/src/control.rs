//! The renderer: it turns widget configurations into draw commands.

use vstd::prelude::*;
use vstd::string::StringExecFns;
use crate::alarm::{code_color, message_color, AlarmCode, AlarmPriority};
use crate::banner::{
    banner, code_badge, code_label, container, drawable, message_label, message_strip, slot,
    slots, title, CODE_MARGIN_TOP, CONTAINER_MARGIN_TOP, MESSAGE_FONT_SIZE, MESSAGE_MARGIN_LEFT,
    MESSAGE_MARGIN_TOP, NOTICE_OFFSET, SLOT_OFFSET, TITLE_FONT_SIZE,
};
use crate::color::{Paint, Rgba};
use crate::config::{
    AlarmsWidgetConfig, BackgroundWidgetConfig, BrandingWidgetConfig, ControlWidgetType,
    ErrorWidgetConfig, GraphWidgetConfig, InitializingWidgetConfig, NoDataWidgetConfig,
    StopWidgetConfig, TelemetryWidgetConfig,
};
use crate::draw::{
    drawing, lemma_drawing_push, DrawCommand, DrawCommandView, Font, Placement, Shape, TextStyle,
};
use crate::environment::Environment;
use crate::fixed;
use crate::fixed::{
    BRANDING_FONT_SIZE, BRANDING_TEXT_ALPHA, NOTICE_FONT_SIZE, STOPPED_ALPHA, STOPPED_BORDERS,
    STOPPED_MESSAGE_FONT_SIZE, STOPPED_TITLE_FONT_SIZE, TELEMETRY_LABEL_FONT_SIZE,
    TELEMETRY_MARGIN_LEFT, TELEMETRY_ROUND, TELEMETRY_TITLE_MARGIN_TOP,
    TELEMETRY_UNIT_ALPHA, TELEMETRY_UNIT_MARGIN_BOTTOM, TELEMETRY_VALUE_FONT_SIZE,
};
use crate::ids::{pool_get, pool_ids};
use crate::text::{branding_text, decimal_text, error_text};

verus! {

/// Collects the draw commands of one frame. Widgets are rendered one after
/// the other; each appends its commands to those already collected.
pub struct ControlWidget {
    environment: Environment,
    commands: Vec<DrawCommand>,
}

impl ControlWidget {
    /// The measures that the renderer lays out by.
    pub closed spec fn environment(&self) -> Environment {
        self.environment
    }

    /// The commands collected so far, oldest first.
    pub closed spec fn drawn(&self) -> Seq<DrawCommandView> {
        drawing(self.commands@)
    }

    /// A renderer that has drawn nothing yet.
    pub fn new(environment: Environment) -> (widget: ControlWidget)
        ensures
            widget.environment() == environment,
            widget.drawn() == Seq::<DrawCommandView>::empty(),
    {
        let widget = ControlWidget { environment, commands: Vec::new() };
        assert(widget.drawn() =~= Seq::<DrawCommandView>::empty());
        widget
    }

    /// The commands collected so far, oldest first.
    pub fn commands(&self) -> (commands: &Vec<DrawCommand>)
        ensures
            drawing(commands@) == self.drawn(),
    {
        &self.commands
    }

    fn draw(&mut self, command: DrawCommand)
        ensures
            final(self).environment() == old(self).environment(),
            final(self).drawn() == old(self).drawn().push(command@),
    {
        proof {
            lemma_drawing_push(self.commands@, command);
        }
        self.commands.push(command);
    }

    /// Background of the badge that shows an alarm's number.
    pub fn alarm_code_color(&self, alarm_priority: &AlarmPriority) -> (color: Rgba)
        ensures
            color == code_color(*alarm_priority),
    {
        match alarm_priority {
            AlarmPriority::High => Rgba::new_solid(255, 32, 32),
            AlarmPriority::Medium => Rgba::new_solid(255, 138, 0),
            AlarmPriority::Low => Rgba::new_solid(255, 195, 0),
        }
    }

    /// Background of the strip that shows an alarm's description.
    pub fn alarm_message_color(&self, alarm_priority: &AlarmPriority) -> (color: Rgba)
        ensures
            color == message_color(*alarm_priority),
    {
        match alarm_priority {
            AlarmPriority::High => Rgba::new_solid(169, 35, 35),
            AlarmPriority::Medium => Rgba::new_solid(169, 99, 16),
            AlarmPriority::Low => Rgba::new_solid(174, 133, 0),
        }
    }

    /// Draws the badge of slot `index` and the alarm's number on it.
    pub fn alarm_code(
        &mut self,
        config: &AlarmsWidgetConfig,
        alarm_code: &AlarmCode,
        alarm_priority: &AlarmPriority,
        index: usize,
    )
        requires
            index < pool_ids(*config.alarm_widgets).len(),
            index < pool_ids(*config.alarm_codes_containers).len(),
            index < pool_ids(*config.alarm_codes).len(),
        ensures
            final(self).environment() == old(self).environment(),
            final(self).drawn() == old(self).drawn() + seq![
                code_badge(old(self).environment(), *config, *alarm_priority, index as nat),
                code_label(*config, *alarm_code, index as nat),
            ],
    {
        let color = self.alarm_code_color(alarm_priority);
        let canvas = pool_get(config.alarm_widgets, index);
        let badge = pool_get(config.alarm_codes_containers, index);
        self.draw(
            DrawCommand {
                id: badge,
                shape: Shape::Canvas {
                    size: Some(
                        (
                            self.environment.alarm_code_width as i64,
                            self.environment.alarm_code_height as i64,
                        ),
                    ),
                    fill: Paint::Fixed(color),
                    borderless: true,
                },
                placement: Placement::StartOf { other: canvas, inset: None },
            },
        );
        self.draw(
            DrawCommand {
                id: pool_get(config.alarm_codes, index),
                shape: Shape::Text {
                    content: decimal_text(alarm_code.code()),
                    style: TextStyle {
                        font: Font::Bold,
                        color: Rgba::new_white(100),
                        font_size: TITLE_FONT_SIZE,
                    },
                },
                placement: Placement::MidTopWithMarginOn { other: badge, margin: CODE_MARGIN_TOP },
            },
        );
        assert(self.drawn() =~= old(self).drawn() + seq![
            code_badge(old(self).environment(), *config, *alarm_priority, index as nat),
            code_label(*config, *alarm_code, index as nat),
        ]);
    }

    /// Draws the strip of slot `index` and the alarm's description on it.
    pub fn alarm_message(
        &mut self,
        config: &AlarmsWidgetConfig,
        code: &AlarmCode,
        alarm_priority: &AlarmPriority,
        index: usize,
    )
        requires
            index < pool_ids(*config.alarm_widgets).len(),
            index < pool_ids(*config.alarm_messages_containers).len(),
            index < pool_ids(*config.alarm_messages).len(),
        ensures
            final(self).environment() == old(self).environment(),
            final(self).drawn() == old(self).drawn() + seq![
                message_strip(old(self).environment(), *config, *alarm_priority, index as nat),
                message_label(*config, *code, index as nat),
            ],
    {
        let color = self.alarm_message_color(alarm_priority);
        let canvas = pool_get(config.alarm_widgets, index);
        let strip = pool_get(config.alarm_messages_containers, index);
        self.draw(
            DrawCommand {
                id: strip,
                shape: Shape::Canvas {
                    size: Some(
                        (
                            self.environment.alarm_message_width as i64,
                            self.environment.alarm_message_height as i64,
                        ),
                    ),
                    fill: Paint::Fixed(color),
                    borderless: true,
                },
                placement: Placement::StartOf {
                    other: canvas,
                    inset: Some(self.environment.alarm_code_width as i64),
                },
            },
        );
        self.draw(
            DrawCommand {
                id: pool_get(config.alarm_messages, index),
                shape: Shape::Text {
                    content: String::from_str(code.description()),
                    style: TextStyle {
                        font: Font::Theme,
                        color: Rgba::new_white(100),
                        font_size: MESSAGE_FONT_SIZE,
                    },
                },
                placement: Placement::TopLeftWithMarginsOn {
                    other: strip,
                    top: MESSAGE_MARGIN_TOP,
                    left: MESSAGE_MARGIN_LEFT,
                },
            },
        );
        assert(self.drawn() =~= old(self).drawn() + seq![
            message_strip(old(self).environment(), *config, *alarm_priority, index as nat),
            message_label(*config, *code, index as nat),
        ]);
    }

    /// Draws one alarm in slot `index`: the slot's canvas at the slot's
    /// offset, then the badge and the strip on it.
    pub fn alarm(
        &mut self,
        config: &AlarmsWidgetConfig,
        code: &AlarmCode,
        alarm_priority: &AlarmPriority,
        index: usize,
    )
        requires
            old(self).environment().offset_in_range(index as nat),
            config.spec_pools_hold((index + 1) as nat),
        ensures
            final(self).environment() == old(self).environment(),
            final(self).drawn() == old(self).drawn() + slot(
                old(self).environment(),
                *config,
                *code,
                *alarm_priority,
                index as nat,
            ),
    {
        let from_top = self.environment.slot_offset(index);
        self.draw(
            DrawCommand {
                id: pool_get(config.alarm_widgets, index),
                shape: Shape::Canvas {
                    size: None,
                    fill: Paint::Fixed(Rgba::new_black(0)),
                    borderless: true,
                },
                placement: Placement::StackedRightFrom {
                    stack: config.container,
                    from_end: from_top,
                    other: config.title,
                    offset: SLOT_OFFSET,
                },
            },
        );
        self.alarm_code(config, code, alarm_priority, index);
        self.alarm_message(config, code, alarm_priority, index);
        assert(self.drawn() =~= old(self).drawn() + slot(
            old(self).environment(),
            *config,
            *code,
            *alarm_priority,
            index as nat,
        ));
    }

    /// Draws the alarm banner and returns the width that it takes from the
    /// widgets beside it, which is none.
    ///
    /// The container and the title are always drawn. While no alarm is
    /// active a notice follows. Otherwise the alarms follow in the order
    /// given, each in the slot of its rank, up to the banner's capacity; the
    /// alarms beyond it are left out without a trace.
    pub fn alarms(&mut self, config: AlarmsWidgetConfig) -> (width: i64)
        requires
            drawable(old(self).environment(), config),
        ensures
            final(self).environment() == old(self).environment(),
            final(self).drawn() == old(self).drawn() + banner(old(self).environment(), config),
            width == 0,
    {
        let ghost environment = self.environment;
        let ghost before = self.drawn();
        self.draw(
            DrawCommand {
                id: config.container,
                shape: Shape::RoundedRectangle {
                    width: self.environment.alarm_container_width as i64,
                    height: self.environment.alarm_container_height as i64,
                    radius: self.environment.rounded_rectangles_round as i64,
                    fill: Paint::Fixed(self.environment.alarm_container_color),
                },
                placement: Placement::MidTopWithMarginOn {
                    other: config.parent,
                    margin: CONTAINER_MARGIN_TOP,
                },
            },
        );
        self.draw(
            DrawCommand {
                id: config.title,
                shape: Shape::Text {
                    content: String::from_str("ALARMS"),
                    style: TextStyle {
                        font: Font::Bold,
                        color: Rgba::new_white(100),
                        font_size: TITLE_FONT_SIZE,
                    },
                },
                placement: Placement::MidLeftWithMarginOn {
                    other: config.container,
                    margin: self.environment.alarm_container_padding_left as i64,
                },
            },
        );
        let ghost frame = seq![container(environment, config), title(environment, config)];
        assert(self.drawn() =~= before + frame);
        if config.alarms.len() > 0 {
            let max_alarms = self.environment.visible_alarms(config.alarms.len());
            for x in 0..max_alarms
                invariant
                    self.environment() == environment,
                    max_alarms == environment.spec_visible_alarms(config.alarms@.len()),
                    drawable(environment, config),
                    self.drawn() == before + frame + slots(environment, config, x as nat),
            {
                proof {
                    environment.lemma_offsets_in_range(x as nat, (max_alarms - 1) as nat);
                }
                let (code, alarm) = config.alarms[x];
                self.alarm(&config, code, alarm, x);
                assert(self.drawn() =~= before + frame + slots(
                    environment,
                    config,
                    (x + 1) as nat,
                ));
            }
            assert(self.drawn() =~= before + banner(environment, config));
        } else {
            self.draw(
                DrawCommand {
                    id: config.empty,
                    shape: Shape::Text {
                        content: String::from_str("There is no active alarm."),
                        style: TextStyle {
                            font: Font::Theme,
                            color: Rgba::new_white(50),
                            font_size: TITLE_FONT_SIZE,
                        },
                    },
                    placement: Placement::RightFrom { other: config.title, offset: NOTICE_OFFSET },
                },
            );
            assert(self.drawn() =~= before + banner(environment, config));
        }
        0
    }

    /// Draws the background and returns the width that it takes, which is
    /// none.
    pub fn background(&mut self, config: BackgroundWidgetConfig) -> (width: i64)
        ensures
            final(self).environment() == old(self).environment(),
            final(self).drawn() == old(self).drawn() + fixed::background(config),
            width == 0,
    {
        self.draw(
            DrawCommand {
                id: config.id,
                shape: Shape::Canvas {
                    size: None,
                    fill: Paint::Supplied(config.color),
                    borderless: false,
                },
                placement: Placement::Unplaced,
            },
        );
        assert(self.drawn() =~= old(self).drawn() + fixed::background(config));
        0
    }

    /// Draws the logo with the versions under it and returns the logo's
    /// width.
    pub fn branding(&mut self, config: BrandingWidgetConfig) -> (width: i64)
        ensures
            final(self).environment() == old(self).environment(),
            final(self).drawn() == old(self).drawn() + fixed::branding(
                old(self).environment(),
                config,
            ),
            width == config.width,
    {
        self.draw(
            DrawCommand {
                id: config.ids.0,
                shape: Shape::Image {
                    image: config.image,
                    width: config.width as i64,
                    height: config.height as i64,
                },
                placement: Placement::TopLeftWithMargins {
                    top: self.environment.branding_image_margin_top as i64,
                    left: self.environment.branding_image_margin_left as i64,
                },
            },
        );
        self.draw(
            DrawCommand {
                id: config.ids.1,
                shape: Shape::Text {
                    content: branding_text(config.version_firmware, config.version_control),
                    style: TextStyle {
                        font: Font::Theme,
                        color: Rgba::new_white(BRANDING_TEXT_ALPHA),
                        font_size: BRANDING_FONT_SIZE,
                    },
                },
                placement: Placement::TopLeftWithMargins {
                    top: self.environment.branding_text_margin_top as i64,
                    left: self.environment.branding_text_margin_left as i64,
                },
            },
        );
        assert(self.drawn() =~= old(self).drawn() + fixed::branding(
            old(self).environment(),
            config,
        ));
        config.width as i64
    }

    /// Draws the graph and returns its width.
    pub fn graph(&mut self, config: GraphWidgetConfig) -> (width: i64)
        ensures
            final(self).environment() == old(self).environment(),
            final(self).drawn() == old(self).drawn() + fixed::graph(old(self).environment(), config),
            width == config.width,
    {
        self.draw(
            DrawCommand {
                id: config.id,
                shape: Shape::Image {
                    image: config.image,
                    width: config.width as i64,
                    height: config.height as i64,
                },
                placement: Placement::MidBottomWithMarginOn {
                    other: config.parent,
                    margin: self.environment.graph_draw_spacing_from_bottom as i64,
                },
            },
        );
        assert(self.drawn() =~= old(self).drawn() + fixed::graph(old(self).environment(), config));
        config.width as i64
    }

    /// Draws a telemetry tile and returns the width of a tile.
    pub fn telemetry_widget(&mut self, config: TelemetryWidgetConfig) -> (width: i64)
        ensures
            final(self).environment() == old(self).environment(),
            final(self).drawn() == old(self).drawn() + fixed::telemetry(
                old(self).environment(),
                config,
            ),
            width == old(self).environment().telemetry_widget_size_width,
    {
        let TelemetryWidgetConfig {
            title,
            value,
            unit,
            ids,
            x_position,
            y_position,
            background_color,
        } = config;
        self.draw(
            DrawCommand {
                id: ids.1,
                shape: Shape::RoundedRectangle {
                    width: self.environment.telemetry_widget_size_width as i64,
                    height: self.environment.telemetry_widget_size_height as i64,
                    radius: TELEMETRY_ROUND,
                    fill: Paint::Supplied(background_color),
                },
                placement: Placement::BottomLeftWithMarginsOn {
                    other: ids.0,
                    bottom: y_position as i64,
                    left: x_position as i64 + self.environment.telemetry_widget_size_spacing as i64,
                },
            },
        );
        self.draw(
            DrawCommand {
                id: ids.2,
                shape: Shape::Text {
                    content: String::from_str(title),
                    style: TextStyle {
                        font: Font::Theme,
                        color: Rgba::new_white(100),
                        font_size: TELEMETRY_LABEL_FONT_SIZE,
                    },
                },
                placement: Placement::TopLeftWithMarginsOn {
                    other: ids.1,
                    top: TELEMETRY_TITLE_MARGIN_TOP,
                    left: TELEMETRY_MARGIN_LEFT,
                },
            },
        );
        self.draw(
            DrawCommand {
                id: ids.3,
                shape: Shape::Text {
                    content: value,
                    style: TextStyle {
                        font: Font::Bold,
                        color: Rgba::new_white(100),
                        font_size: TELEMETRY_VALUE_FONT_SIZE,
                    },
                },
                placement: Placement::MidLeftWithMarginOn {
                    other: ids.1,
                    margin: TELEMETRY_MARGIN_LEFT,
                },
            },
        );
        self.draw(
            DrawCommand {
                id: ids.4,
                shape: Shape::Text {
                    content: String::from_str(unit),
                    style: TextStyle {
                        font: Font::Theme,
                        color: Rgba::new_white(TELEMETRY_UNIT_ALPHA),
                        font_size: TELEMETRY_LABEL_FONT_SIZE,
                    },
                },
                placement: Placement::BottomLeftWithMarginsOn {
                    other: ids.1,
                    bottom: TELEMETRY_UNIT_MARGIN_BOTTOM,
                    left: TELEMETRY_MARGIN_LEFT,
                },
            },
        );
        assert(self.drawn() =~= old(self).drawn() + fixed::telemetry(
            old(self).environment(),
            config,
        ));
        self.environment.telemetry_widget_size_width as i64
    }

    /// Draws the report of an error and returns the width that it takes,
    /// which is none.
    pub fn error(&mut self, config: ErrorWidgetConfig) -> (width: i64)
        ensures
            final(self).environment() == old(self).environment(),
            final(self).drawn() == old(self).drawn() + fixed::error(config),
            width == 0,
    {
        self.draw(
            DrawCommand {
                id: config.id,
                shape: Shape::Text {
                    content: error_text(config.error.as_str()),
                    style: TextStyle {
                        font: Font::Bold,
                        color: Rgba::new_white(100),
                        font_size: NOTICE_FONT_SIZE,
                    },
                },
                placement: Placement::AlignTop,
            },
        );
        assert(self.drawn() =~= old(self).drawn() + fixed::error(config));
        0
    }

    /// Draws the stop notice and returns the width that it takes, which is
    /// none.
    pub fn stop(&mut self, config: StopWidgetConfig) -> (width: i64)
        ensures
            final(self).environment() == old(self).environment(),
            final(self).drawn() == old(self).drawn() + fixed::stop(old(self).environment(), config),
            width == 0,
    {
        self.draw(
            DrawCommand {
                id: config.background,
                shape: Shape::Canvas {
                    size: Some(
                        (
                            self.environment.window_size_width as i64,
                            self.environment.window_size_height as i64
                                - self.environment.alarm_container_height as i64,
                        ),
                    ),
                    fill: Paint::Fixed(Rgba::new_black(STOPPED_ALPHA)),
                    borderless: true,
                },
                placement: Placement::Absolute {
                    x: 0,
                    y: -(self.environment.alarm_container_height as i64),
                },
            },
        );
        self.draw(
            DrawCommand {
                id: config.container_borders,
                shape: Shape::RoundedRectangle {
                    width: self.environment.stopped_message_container_width as i64
                        + STOPPED_BORDERS,
                    height: self.environment.stopped_message_container_height as i64
                        + STOPPED_BORDERS,
                    radius: self.environment.rounded_rectangles_round as i64,
                    fill: Paint::Fixed(Rgba::new_solid(81, 81, 81)),
                },
                placement: Placement::MiddleOf { other: config.parent },
            },
        );
        self.draw(
            DrawCommand {
                id: config.container,
                shape: Shape::Canvas {
                    size: Some(
                        (
                            self.environment.stopped_message_container_width as i64,
                            self.environment.stopped_message_container_height as i64,
                        ),
                    ),
                    fill: Paint::Fixed(Rgba::new_solid(26, 26, 26)),
                    borderless: true,
                },
                placement: Placement::MiddleOf { other: config.container_borders },
            },
        );
        self.draw(
            DrawCommand {
                id: config.title,
                shape: Shape::Text {
                    content: String::from_str("Ventilator unit inactive"),
                    style: TextStyle {
                        font: Font::Bold,
                        color: Rgba::new_white(100),
                        font_size: STOPPED_TITLE_FONT_SIZE,
                    },
                },
                placement: Placement::MidTopWithMarginOn {
                    other: config.container,
                    margin: self.environment.stopped_message_padding_top as i64,
                },
            },
        );
        self.draw(
            DrawCommand {
                id: config.message,
                shape: Shape::Text {
                    content: String::from_str("Please re-enable it to resume respiration"),
                    style: TextStyle {
                        font: Font::Regular,
                        color: Rgba::new_white(STOPPED_ALPHA),
                        font_size: STOPPED_MESSAGE_FONT_SIZE,
                    },
                },
                placement: Placement::MidBottomWithMarginOn {
                    other: config.container,
                    margin: self.environment.stopped_message_padding_bottom as i64,
                },
            },
        );
        assert(self.drawn() =~= old(self).drawn() + fixed::stop(old(self).environment(), config));
        0
    }

    /// Draws the notice that no data arrives and returns the width that it
    /// takes, which is none.
    pub fn no_data(&mut self, config: NoDataWidgetConfig) -> (width: i64)
        ensures
            final(self).environment() == old(self).environment(),
            final(self).drawn() == old(self).drawn() + fixed::no_data(config),
            width == 0,
    {
        self.draw(
            DrawCommand {
                id: config.id,
                shape: Shape::Text {
                    content: String::from_str("Device disconnected or no data received"),
                    style: TextStyle {
                        font: Font::Bold,
                        color: Rgba::new_white(100),
                        font_size: NOTICE_FONT_SIZE,
                    },
                },
                placement: Placement::Middle,
            },
        );
        assert(self.drawn() =~= old(self).drawn() + fixed::no_data(config));
        0
    }

    /// Draws the picture shown while the display starts and returns the
    /// width that it takes, which is none.
    pub fn initializing(&mut self, config: InitializingWidgetConfig) -> (width: i64)
        ensures
            final(self).environment() == old(self).environment(),
            final(self).drawn() == old(self).drawn() + fixed::initializing(config),
            width == 0,
    {
        self.draw(
            DrawCommand {
                id: config.id,
                shape: Shape::Image {
                    image: config.image,
                    width: config.width as i64,
                    height: config.height as i64,
                },
                placement: Placement::Middle,
            },
        );
        assert(self.drawn() =~= old(self).drawn() + fixed::initializing(config));
        0
    }

    /// Draws a widget of any kind with the renderer of that kind, and
    /// returns the width that the widget takes from the widgets beside it.
    pub fn render(&mut self, widget_type: ControlWidgetType) -> (width: i64)
        requires
            renderable(old(self).environment(), widget_type),
        ensures
            final(self).environment() == old(self).environment(),
            final(self).drawn() == old(self).drawn() + rendering(
                old(self).environment(),
                widget_type,
            ),
            width == width_of(old(self).environment(), widget_type),
    {
        match widget_type {
            ControlWidgetType::Alarms(config) => self.alarms(config),
            ControlWidgetType::Background(config) => self.background(config),
            ControlWidgetType::Error(config) => self.error(config),
            ControlWidgetType::Branding(config) => self.branding(config),
            ControlWidgetType::Initializing(config) => self.initializing(config),
            ControlWidgetType::Graph(config) => self.graph(config),
            ControlWidgetType::NoData(config) => self.no_data(config),
            ControlWidgetType::Stop(config) => self.stop(config),
            ControlWidgetType::Telemetry(config) => self.telemetry_widget(config),
        }
    }

    /// Draws a widget as `render` does if the widget can be drawn at all.
    /// An alarm banner whose pools are too short for the alarms that it has
    /// to show cannot, nor one whose slots lie farther out than a length can
    /// tell: then nothing is drawn and no width is returned.
    pub fn try_render(&mut self, widget_type: ControlWidgetType) -> (width: Option<i64>)
        ensures
            final(self).environment() == old(self).environment(),
            width.is_some() == renderable(old(self).environment(), widget_type),
            width matches Some(w) ==> {
                &&& w == width_of(old(self).environment(), widget_type)
                &&& final(self).drawn() == old(self).drawn() + rendering(
                    old(self).environment(),
                    widget_type,
                )
            },
            width.is_none() ==> final(self).drawn() == old(self).drawn(),
    {
        let ready = match &widget_type {
            ControlWidgetType::Alarms(config) => {
                let visible = self.environment.visible_alarms(config.alarms.len());
                config.pools_hold(visible) && (visible == 0
                    || self.environment.slot_offset_in_range(visible - 1))
            },
            _ => true,
        };
        if ready {
            Some(self.render(widget_type))
        } else {
            None
        }
    }
}

/// Whether a widget can be drawn: any widget but an alarm banner that cannot.
pub open spec fn renderable(environment: Environment, widget_type: ControlWidgetType) -> bool {
    widget_type matches ControlWidgetType::Alarms(config) ==> drawable(environment, config)
}

/// The commands that draw a widget: those of the one renderer of its kind.
pub open spec fn rendering(environment: Environment, widget_type: ControlWidgetType) -> Seq<
    DrawCommandView,
> {
    match widget_type {
        ControlWidgetType::Alarms(config) => banner(environment, config),
        ControlWidgetType::Background(config) => fixed::background(config),
        ControlWidgetType::Error(config) => fixed::error(config),
        ControlWidgetType::Branding(config) => fixed::branding(environment, config),
        ControlWidgetType::Initializing(config) => fixed::initializing(config),
        ControlWidgetType::Graph(config) => fixed::graph(environment, config),
        ControlWidgetType::NoData(config) => fixed::no_data(config),
        ControlWidgetType::Stop(config) => fixed::stop(environment, config),
        ControlWidgetType::Telemetry(config) => fixed::telemetry(environment, config),
    }
}

/// The width that a widget takes from the widgets beside it: its own width
/// for the logo and the graph, the width of a tile for a telemetry tile, and
/// none for the others.
pub open spec fn width_of(environment: Environment, widget_type: ControlWidgetType) -> int {
    match widget_type {
        ControlWidgetType::Branding(config) => config.width as int,
        ControlWidgetType::Graph(config) => config.width as int,
        ControlWidgetType::Telemetry(_) => environment.telemetry_widget_size_width as int,
        _ => 0,
    }
}

} // verus!
