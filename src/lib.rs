//! The widget layer of a retained-mode GUI toolkit: widget identities and
//! the widget interface, the wrapper through which containers reach their
//! children, the contexts of the traversal passes, and a text label widget,
//! with geometry in whole logical pixels.

pub mod contexts;
pub mod geometry;
pub mod label;
pub mod pod;
pub mod text;
pub mod widget;
