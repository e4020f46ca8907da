//! The safe core of a bridge to a dynamically loaded native market-data
//! module.
//!
//! The module exchanges JSON envelopes through a caller-supplied buffer of
//! unknown required size and calls back through function pointers that carry
//! one opaque context value. This crate decides everything around those two
//! boundaries and touches neither: it builds the requests, reads the return
//! codes and output buffers, grows the buffer between retries, paces the
//! login, keeps the table of callbacks, and shapes the answers. Whoever uses
//! it loads the module, makes the calls and waits where told to.

pub mod error;
pub mod text;
pub mod json;
pub mod envelope;
pub mod query;
pub mod session;
pub mod callback;
pub mod constants;
pub mod libpath;
pub mod code;
pub mod requests;
pub mod listings;
pub mod quotes;
pub mod klines;
pub mod postprocess;
