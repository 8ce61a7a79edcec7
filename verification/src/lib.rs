//! The policy layer between textual XML and the KBin binary node-tree format.
//!
//! The codec that parses and serializes trees is a service of the caller. This
//! library decides everything around it: which encoding tags exist, how a
//! partially filled request becomes a codec configuration, in which order the
//! stages of a conversion run, how generated text is compacted, and which
//! error a failure is reported as.

pub mod decode;
pub mod encode;
pub mod encoding;
pub mod error;
pub mod options;
pub mod text;
pub mod types;
