//! An in-process notification fan-out registry.
//!
//! Many independent consumers — per-user connections and anonymous public
//! listeners — obtain receiver handles from a shared [`Subscriptions`]
//! registry; publishers push events to them fire-and-forget, without knowing
//! who is listening. Three channel families share one lookup-or-create-under-
//! lock pattern: a per-user single-slot portfolio signal, a singleton public
//! broadcast, and a per-user payment broadcast. Per-user channels are created
//! lazily on first subscription and never removed; sending to an unknown user
//! id is a silent no-op; a slow consumer lags instead of blocking publishers.

pub mod channels;
pub mod keytable;
pub mod laws;
pub mod registry;

pub use registry::Subscriptions;
