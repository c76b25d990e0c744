//! Frame orchestration for a progressive compute ray tracer: queue and
//! surface selection, image layout tracking, descriptor binding plans,
//! resource lifetimes, scene records and the frame-in-flight scheduler.

pub mod descriptors;
pub mod device;
pub mod frame;
pub mod input;
pub mod layout;
pub mod resources;
pub mod scene;
