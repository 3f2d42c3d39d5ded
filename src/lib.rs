//! Background removal core: model catalog, weight-file and session decisions,
//! mask resampling, alpha compositing, translation lookup and job planning.

pub mod catalog;
pub mod compositor;
pub mod resample;
pub mod mask;
pub mod lifecycle;
pub mod lang;
pub mod processing;
pub mod batch;
