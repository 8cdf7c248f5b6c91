//! Safe ownership and decision logic for translation units, diagnostics and
//! source locations produced by a handle-based parsing engine.
//!
//! Native handles are carried as plain addresses (`usize`, zero for null);
//! the calls into the engine itself are made by the application around this
//! library, which hands the results back as plain values.
pub mod diagnostic;
pub mod error;
pub mod handle;
pub mod loc;
pub mod tu;
