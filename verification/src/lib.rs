//! A status-bar widget library: a widget periodically samples a piece of
//! system state and emits formatted text fragments for the host bar to
//! display. The tick scheduling, error isolation and rendering rules are
//! stated as contracts and proved.

pub mod render;
pub mod sample;
pub mod stream;
pub mod text;
pub mod widget;
