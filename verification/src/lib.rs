//! The core of a binding layer between native extension code and a host runtime
//! that runs each instance of the extension on one owning thread and offers a
//! worker pool beside it.
//!
//! The host is kept here as a plain value, [`env::Env`], so that every rule of
//! the layer is a function from values to values with a proved contract:
//!
//! * [`async_work`] moves one unit of work to the pool and its result back;
//! * [`tsfn`] is the queue by which any thread asks the owning thread to run
//!   something, and [`lifecycle`] keeps one such queue per instance for
//!   releasing what only the owning thread may release;
//! * [`types`] names the values of the runtime that native code handles, by
//!   the handles of [`handle`] and [`raw`]; [`result`] is how a call says that
//!   an exception is being thrown.

pub mod raw;
pub mod env;
pub mod async_work;
pub mod tsfn;
pub mod lifecycle;
pub mod handle;
pub mod result;
pub mod types;
