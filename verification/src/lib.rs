//! A small console demonstration, computed rather than printed.
//!
//! The demonstration greets, counts through a range, walks a fixed array and
//! rebinds two kinds of text. Every line it would write to a console is
//! appended to a [`transcript::Transcript`], so that what is written, and in
//! which order, is stated in contracts and proved.

pub mod decimal;
pub mod transcript;
pub mod demo;
