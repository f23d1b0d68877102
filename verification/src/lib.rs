//! A text-formatting support library built around a two-phase display
//! protocol: a value first reports how wide its natural rendering will be
//! (together with any auxiliary metadata), and only then is asked to write
//! itself, so that padding and alignment can be applied without buffering.
//!
//! The crate also models the two compile-time generators that accompany the
//! protocol: one derives a standard-display forwarder from a protocol
//! conformance, the other re-homes a non-public data definition inside a
//! generated module while preserving the effective visibility of the
//! definition and of each of its fields.

pub mod decimal;
pub mod delegate;
pub mod diagnostics;
pub mod metadata;
pub mod options;
pub mod private_metadata;
pub mod sink;
pub mod smart_display;
pub mod smart_display_impls;
pub mod visibility;

pub use metadata::Metadata;
pub use options::Alignment;
pub use options::FormatterOptions;
pub use sink::Sink;
pub use sink::WriteFailed;
pub use smart_display::SmartDisplay;
pub use smart_display::write_padded;
