//! Gravity fields: overlapping volumes that each give every point of space an
//! "up" direction, the priority scheme that picks among them, and the layout
//! of the rounded collision primitives that approximate a field's shape.
//!
//! This crate holds the exact part of that work: every decision, index and
//! integer-valued frame. Scalars measured in the scene stay with the caller,
//! who hands in the outcome of each comparison as a [`gravity::util::Sign`]
//! or a `bool` and receives a description of what to compute.

pub mod gravity;
