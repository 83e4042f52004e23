//! What the caller asks to be drawn: one configuration per kind of widget.
//!
//! A configuration names the surface elements that the widget may use and
//! carries what the widget shows. Lengths count in tenths of a pixel.

use vstd::prelude::*;
use crate::alarm::{AlarmCode, AlarmPriority};
use crate::ids::{pool_ids, pool_len, WidgetId, WidgetIds};

verus! {

/// The canvas behind everything else.
pub struct BackgroundWidgetConfig {
    pub color: conrod_core::color::Color,
    pub id: WidgetId,
}

impl BackgroundWidgetConfig {
    pub fn new(color: conrod_core::color::Color, id: WidgetId) -> (config: BackgroundWidgetConfig)
        ensures
            config.color == color,
            config.id == id,
    {
        BackgroundWidgetConfig { color, id }
    }
}

/// The logo with the two version numbers under it.
pub struct BrandingWidgetConfig<'a> {
    pub version_firmware: &'a str,
    pub version_control: &'a str,
    pub width: i32,
    pub height: i32,
    pub image: conrod_core::image::Id,
    /// The elements of the logo and of the line under it.
    pub ids: (WidgetId, WidgetId),
}

impl<'a> BrandingWidgetConfig<'a> {
    pub fn new(
        version_firmware: &'a str,
        version_control: &'a str,
        width: i32,
        height: i32,
        image: conrod_core::image::Id,
        ids: (WidgetId, WidgetId),
    ) -> (config: BrandingWidgetConfig<'a>)
        ensures
            config.version_firmware == version_firmware,
            config.version_control == version_control,
            config.width == width,
            config.height == height,
            config.image == image,
            config.ids == ids,
    {
        BrandingWidgetConfig { version_firmware, version_control, width, height, image, ids }
    }
}

/// A tile with one measured value.
pub struct TelemetryWidgetConfig<'a> {
    pub title: &'a str,
    pub value: String,
    pub unit: &'a str,
    pub ids: WidgetIds,
    pub x_position: i32,
    pub y_position: i32,
    pub background_color: conrod_core::color::Color,
}

/// The picture of the pressure curve.
pub struct GraphWidgetConfig {
    pub width: i32,
    pub height: i32,
    pub image: conrod_core::image::Id,
    pub parent: WidgetId,
    pub id: WidgetId,
}

impl GraphWidgetConfig {
    pub fn new(
        width: i32,
        height: i32,
        image: conrod_core::image::Id,
        parent: WidgetId,
        id: WidgetId,
    ) -> (config: GraphWidgetConfig)
        ensures
            config.width == width,
            config.height == height,
            config.image == image,
            config.parent == parent,
            config.id == id,
    {
        GraphWidgetConfig { width, height, image, parent, id }
    }
}

/// The report of an error.
pub struct ErrorWidgetConfig {
    pub error: String,
    pub id: WidgetId,
}

impl ErrorWidgetConfig {
    pub fn new(error: String, id: WidgetId) -> (config: ErrorWidgetConfig)
        ensures
            config.error == error,
            config.id == id,
    {
        ErrorWidgetConfig { error, id }
    }
}

/// The notice that the ventilator unit is stopped.
pub struct StopWidgetConfig {
    pub parent: WidgetId,
    pub background: WidgetId,
    pub container_borders: WidgetId,
    pub container: WidgetId,
    pub title: WidgetId,
    pub message: WidgetId,
}

/// The notice that no data arrives.
pub struct NoDataWidgetConfig {
    pub id: WidgetId,
}

impl NoDataWidgetConfig {
    pub fn new(id: WidgetId) -> (config: NoDataWidgetConfig)
        ensures
            config.id == id,
    {
        NoDataWidgetConfig { id }
    }
}

/// The picture shown while the display starts.
pub struct InitializingWidgetConfig {
    pub id: WidgetId,
    pub width: i32,
    pub height: i32,
    pub image: conrod_core::image::Id,
}

impl InitializingWidgetConfig {
    pub fn new(id: WidgetId, width: i32, height: i32, image: conrod_core::image::Id) -> (config:
        InitializingWidgetConfig)
        ensures
            config.id == id,
            config.width == width,
            config.height == height,
            config.image == image,
    {
        InitializingWidgetConfig { id, width, height, image }
    }
}

/// The alarm banner: its fixed elements, one pool of identifiers for each of
/// the five elements of a slot, and the active alarms, most urgent first.
pub struct AlarmsWidgetConfig<'a> {
    pub parent: WidgetId,
    pub container: WidgetId,
    pub title: WidgetId,
    pub empty: WidgetId,
    pub alarm_widgets: &'a conrod_core::widget::id::List,
    pub alarm_codes_containers: &'a conrod_core::widget::id::List,
    pub alarm_codes: &'a conrod_core::widget::id::List,
    pub alarm_messages_containers: &'a conrod_core::widget::id::List,
    pub alarm_messages: &'a conrod_core::widget::id::List,
    pub alarms: &'a [(&'a AlarmCode, &'a AlarmPriority)],
}

impl<'a> AlarmsWidgetConfig<'a> {
    /// Each of the five pools holds an identifier for every one of the first
    /// `slots` slots.
    pub open spec fn spec_pools_hold(&self, slots: nat) -> bool {
        &&& slots <= pool_ids(*self.alarm_widgets).len()
        &&& slots <= pool_ids(*self.alarm_codes_containers).len()
        &&& slots <= pool_ids(*self.alarm_codes).len()
        &&& slots <= pool_ids(*self.alarm_messages_containers).len()
        &&& slots <= pool_ids(*self.alarm_messages).len()
    }

    /// Tells whether each of the five pools holds an identifier for every one
    /// of the first `slots` slots.
    pub fn pools_hold(&self, slots: usize) -> (enough: bool)
        ensures
            enough == self.spec_pools_hold(slots as nat),
    {
        slots <= pool_len(self.alarm_widgets) && slots <= pool_len(self.alarm_codes_containers)
            && slots <= pool_len(self.alarm_codes) && slots <= pool_len(
            self.alarm_messages_containers,
        ) && slots <= pool_len(self.alarm_messages)
    }
}

/// A widget of any kind, with its configuration.
pub enum ControlWidgetType<'a> {
    Alarms(AlarmsWidgetConfig<'a>),
    Background(BackgroundWidgetConfig),
    Error(ErrorWidgetConfig),
    Branding(BrandingWidgetConfig<'a>),
    Initializing(InitializingWidgetConfig),
    Graph(GraphWidgetConfig),
    NoData(NoDataWidgetConfig),
    Stop(StopWidgetConfig),
    Telemetry(TelemetryWidgetConfig<'a>),
}

} // verus!
