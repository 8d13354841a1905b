//! Transforms a user-authored CV document into a rendering-ready view model:
//! locale-sensitive date-range formatting, per-item anchor selection, and a
//! replaceable bullet-markup conversion stage.

pub mod model;
pub mod render_model;
pub mod view_model;
