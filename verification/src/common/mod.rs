//! Pitch names: the twelve pitch classes, octaves, and their written form.

pub mod note;
