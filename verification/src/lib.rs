//! A small verified library that installs raw color tables (`CPAL`, `COLR`)
//! into sfnt-style font binaries (TrueType/OpenType).
//!
//! The font binary itself is decoded and re-encoded by the `fonttools` /
//! `otspec` crates; this library contributes the verified part around them:
//! a bounds check of the sfnt table directory, the injection logic, and
//! contracts that pin down what each call returns, stated over a model of a
//! font as a map from 4-byte table tags to raw table contents.

pub mod codec;
pub mod inject;
pub mod model;
pub mod sfnt;
