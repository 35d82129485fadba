//! The description of terminal-cell animations.
//!
//! An effect is a tree of plain values: leaf transforms (evolve, fade,
//! translate) and the combinators that arrange them in time (sequence,
//! parallel, reversed, held start), each with the area, the filter and the
//! pattern it is confined to. The tree says what is to be animated; the
//! host hands it to the animation engine, which paints it frame by frame.
//!
//! This crate builds such trees, checks them and measures how long they
//! last, and holds the scene and the key handling of the host. Every
//! function carries a contract that Verus proves, but for the one that
//! calls into `ratatui`, which is taken on trust and says so.

pub mod geometry;
pub mod color;
pub mod pattern;
pub mod effect;
pub mod input;
pub mod scene;
