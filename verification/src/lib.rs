//! Target-size search and fallback orchestration for image and document
//! compression.
//!
//! Codecs are black boxes that turn a knob (a resolution, a quality, a
//! scale) into a file of some size. This library finds, within a bounded
//! number of probes, a knob whose output fits a target size, and where no
//! knob does it walks a fixed waterfall of ever more destructive fallbacks,
//! keeping nothing irreversible without consent.
//!
//! The library decides; it never runs a codec, reads a file or asks a
//! question. A driver performs each [`protocol::Action`] that an
//! [`engine::Engine`] hands out and reports back what happened as a
//! [`protocol::Event`].
//!
//! - [`search`]: the bounded binary search and what it is proved to find.
//! - [`probing`]: a search together with the scratch files of its probes.
//! - [`png`], [`jpeg`], [`pdf`], [`fallback`]: the engines of the formats
//!   and the fallbacks they share.
//! - [`engine`]: the engine a driver talks to.
//! - [`runs`], [`files`], [`drives`]: what holds of every run.
//! - [`protocol`], [`report`], [`codec`], [`artifacts`]: what engine and
//!   driver say to each other, in values, words, command lines and files.
//! - [`size`], [`paths`], [`request`], [`deps`], [`text`]: the command line
//!   read into a request.

pub mod artifacts;
pub mod codec;
pub mod deps;
pub mod drives;
pub mod engine;
pub mod fallback;
pub mod files;
pub mod jpeg;
pub mod paths;
pub mod pdf;
pub mod png;
pub mod probing;
pub mod protocol;
pub mod report;
pub mod request;
pub mod runs;
pub mod search;
pub mod size;
pub mod text;
