//! A static terminal-UI scaffold: a fixed tree of labeled panels (a header
//! band, a five-row sidebar, a five-by-five grid and a footer band) laid out
//! by proportional splitting, plus the event-loop state machine that quits on
//! the `q` key.
//!
//! All layout arithmetic and the loop's decisions live here, verified; the
//! terminal itself (raw mode, alternate screen, drawing, polling) is driven
//! by the surrounding binary.

pub mod input;
pub mod layout;
pub mod panels;
pub mod ui;

pub use input::{InputEvent, LoopState};
pub use layout::Rect;
pub use panels::Panel;
pub use ui::UiLayout;
