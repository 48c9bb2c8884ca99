//! Nine control points in the plane determine an implicit cubic curve.
//!
//! This library is the logic of an interactive curve editor: the
//! aspect-ratio-aware transform from device pixels to curve space, the
//! hit-test / selection / drag state machine over the nine points, the
//! cofactor structure and normalization of the fitted coefficient vector,
//! and the rendering of the equation text.
//!
//! Curve-space coordinates are fixed-point integers in units of
//! `1 / COORD_SCALE`; coefficients are fixed-point integers in units of
//! `1 / COEFF_SCALE`.  The host layer that owns the GPU surface converts
//! these to its own floating-point types at the boundary.

pub mod fit;
pub mod geom;
pub mod model;
pub mod text;

pub use fit::coefficients_from_minors;
pub use fit::monomials;
pub use fit::normalize;
pub use fit::COEFF_SCALE;
pub use fit::MAX_MINOR;
pub use geom::screen_coords;
pub use geom::Point;
pub use geom::Viewport;
pub use geom::COORD_SCALE;
pub use geom::MARGIN;
pub use geom::MAX_COORD;
pub use geom::MAX_DIM;
pub use model::default_points;
pub use model::dist_sq;
pub use model::hit_test;
pub use model::Model;
pub use model::Msg;
pub use model::HIT_RADIUS_SQ;
pub use text::equation_text;
