//! Maintains a chart repository index: builds a release entry from a chart's
//! constants and a release's parameters and appends it to the index document.

pub mod model;
pub mod index;
pub mod clock;
pub mod update;
pub mod laws;
pub mod load;
