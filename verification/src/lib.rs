//! Library core for building a desktop status bar: a thin horizontal window
//! hosting independently updating components arranged in left, center and
//! right buckets.
//!
//! This crate holds the verified heart of such a bar: the layout calculator,
//! the component registry, the compositing planner and the per-component
//! scheduling state machine. Everything that talks to a display server is kept
//! at the edge: the planner emits plain drawing commands, and the surrounding
//! process executes them.

pub mod alignment;
pub mod background;
pub mod bar;
pub mod builder;
pub mod bar_component;
pub mod color;
pub mod component;
pub mod error;
pub mod formats;
pub mod event;
pub mod foreground;
pub mod geometry;
pub mod img;
pub mod picture;
pub mod scheduler;
pub mod render;
pub mod text;
pub mod timeout;
pub mod width;

pub use alignment::Alignment;
pub use background::Background;
pub use bar::Bar;
pub use builder::BarBuilder;
pub use component::Component;
pub use bar_component::{BarComponent, BarComponentCache};
pub use color::Color;
pub use error::{BarError, BarErrorKind, ContentError};
pub use event::{ClickEvent, Event, MotionEvent, MouseButton};
pub use foreground::Foreground;
pub use geometry::Geometry;
pub use img::Image;
pub use picture::Picture;
pub use text::Text;
pub use timeout::Timeout;
pub use width::Width;
