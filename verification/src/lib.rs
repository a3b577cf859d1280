//! The decision logic of a split-pane component: which engine calls a
//! lifecycle hook gives rise to, in which order, and with which options.
//!
//! The component itself neither touches the DOM nor the split engine. Every
//! hook answers with the next action to perform; the host performs it and
//! hands the outcome back as an event until the component has nothing more
//! to ask for.

pub mod cycle;
pub mod engine;
pub mod gutter;
pub mod laws;
pub mod number;
pub mod options;
pub mod props;
pub mod split;
pub mod tokens;

pub use engine::{Action, Event};
pub use gutter::{Callback, GutterFactory};
pub use number::Number;
pub use options::{OptionEntry, OptionValue, SizeOption, SplitOptions};
pub use props::{SplitProps, UpdateFault};
pub use split::{Phase, Split, State};
pub use tokens::{Cursor, Direction, GutterAlign};
