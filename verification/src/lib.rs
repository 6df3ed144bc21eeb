//! Codec for a legacy binary "world" container format: an ordered directory of
//! typed, variable-length records ("fragments") plus one obfuscated block of
//! shared text. The library parses and re-serializes fragments byte-exactly,
//! decodes the string block, and resolves the numeric cross-references that
//! fragments use to point at strings and at each other.

pub mod codec;
pub mod dispatcher;
pub mod error;
pub mod fragments;
pub mod references;
pub mod string_block;
