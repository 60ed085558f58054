//! A circular loading-indicator widget, modelled as a verified state machine.
//!
//! The library holds the widget's logic: the `progress` property with its
//! bound enforcement, the visibility-driven animation lifecycle, size
//! negotiation, and the exact arc parameters drawn each frame. Rendering and
//! toolkit plumbing live outside the library and consume these values.

pub mod indicator;
