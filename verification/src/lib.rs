//! An immutable, composable drawing-context algebra for 2D vector graphics.
//!
//! A chain of lightweight context values accumulates geometric transforms and
//! drawing attributes (color, rectangle, source rectangle, tween factor); the
//! terminal `draw` operation negotiates backend capabilities and emits a
//! triangle-list draw call. All coordinates and color components are exact
//! rational numbers, so every transform and color operation carries a precise
//! contract.

pub mod back_end;
pub mod context;
pub mod image_color_context;
pub mod matrix;
pub mod relative_color;
pub mod scalar;
pub mod triangulation;
pub mod types;
pub mod variants;
