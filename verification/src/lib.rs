//! Core of a screen-capture-and-annotate tool.
//!
//! The library is split along the lines of the running application:
//!
//! * [`data`] holds the plain geometric data: points, rectangles, colours and
//!   text annotations. Screen coordinates are modeled as bounded integers.
//! * [`display_server`] holds the decision logic of the display gateway:
//!   which root screen owns the pointer, how a window's decorated and content
//!   rectangles are computed from the raw protocol replies, and which windows
//!   are kept. The protocol round-trips themselves are performed by the
//!   surrounding application, which feeds the replies in as plain values.
//! * [`operations`] holds the editable document: the operation stack, its
//!   event-driven mutators, and the deterministic replay that turns the stack
//!   into an ordered list of draw commands.
//! * [`postcapture`] holds the finishing pipeline's decisions: the crop
//!   fallback rules and the resolution of configured post-capture actions.

pub mod data;
pub mod display_server;
pub mod operations;
pub mod postcapture;
