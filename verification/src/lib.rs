//! Easy motion: jump to any visible word or row by typing a short label.
//!
//! The library holds the decisions of the feature as plain functions. A host
//! (an editor with modal editing) reports what happened, performs the
//! [`effect::Effect`]s that come back, in order, and reports again.
//!
//! * [`action`]: the commands a user can invoke and their direction.
//! * [`geometry`]: display rows and points, selections, ranges.
//! * [`style`]: colours and highlight styles of the labels.
//! * [`overlay`]: labels drawn over the text.
//! * [`effect`]: what the host is asked to do.
//! * [`motion`]: the session itself, from command to jump.
//! * [`settings`]: the user's configuration.
//! * [`screen`]: a model of what effects do, and the laws of a session.

pub mod action;
pub mod effect;
pub mod geometry;
pub mod motion;
pub mod overlay;
pub mod screen;
pub mod settings;
pub mod style;
