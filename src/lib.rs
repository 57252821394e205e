//! Room state events turned into typed models: a label codec, the
//! reference and index keys that name storage slots, a decoder from raw
//! state events to typed room-status models, and an in-memory model store.

pub mod labels;
pub mod referencing;
pub mod event;
pub mod status;
pub mod store;
