//! Layout engine of a ventilator's operator display.
//!
//! Every frame the display is described anew as a list of draw commands:
//! which surface element to create or update, with what shape, and where.
//! The engine computes that list; putting it on a surface is left to the
//! caller.

pub mod alarm;
pub mod banner;
pub mod color;
pub mod config;
pub mod control;
pub mod draw;
pub mod environment;
pub mod fixed;
pub mod ids;
pub mod laws;
pub mod text;

pub use alarm::{AlarmCode, AlarmPriority};
pub use color::{Paint, Rgba};
pub use config::{
    AlarmsWidgetConfig, BackgroundWidgetConfig, BrandingWidgetConfig, ControlWidgetType,
    ErrorWidgetConfig, GraphWidgetConfig, InitializingWidgetConfig, NoDataWidgetConfig,
    StopWidgetConfig, TelemetryWidgetConfig,
};
pub use control::ControlWidget;
pub use draw::{DrawCommand, Font, Placement, Shape, TextStyle};
pub use environment::Environment;
pub use ids::{WidgetId, WidgetIds};
