//! Core model of vector drawing shapes for a scene-graph renderer: geometry
//! kinds (axis boxes, ellipses, free-form and boolean-combined paths), paint
//! descriptors (fills, strokes, gradients), and the path-space transform —
//! the local coordinate frame in which path geometry and boolean path
//! operations must be evaluated, independent of the shape's own transform.
//!
//! Coordinates, matrix entries and paint scalars are plain integers in the
//! host's fixed-point encoding; the host boundary converts its own numeric
//! formats before values enter this crate.

mod bools;
mod errors;
mod fills;
mod math;
mod matrix;
mod paths;
mod shape;
mod strokes;

pub use bools::BoolType;
pub use bools::bool_type_of;
pub use bools::lemma_bool_type_decode;
pub use errors::ShapeError;
pub use fills::Color;
pub use fills::Fill;
pub use fills::FillV;
pub use fills::Gradient;
pub use fills::GradientStop;
pub use fills::RawStopData;
pub use fills::fill_is_gradient;
pub use fills::fill_with_stops;
pub use fills::fills_view;
pub use fills::stop_of_raw;
pub use fills::stops_of_raw;
pub use math::Rect;
pub use matrix::Matrix;
pub use matrix::PathTransform;
pub use matrix::PathTransformV;
pub use matrix::compute_path_transform;
pub use matrix::lemma_path_transform_fixes_center;
pub use matrix::lemma_translation_path_transform_is_identity;
pub use matrix::path_transform_model;
pub use matrix::pt_fixes_center;
pub use matrix::pt_is_identity;
pub use paths::Path;
pub use paths::RawPathData;
pub use paths::Segment;
pub use paths::decode_segments;
pub use paths::encode_segments;
pub use paths::lemma_segments_round_trip;
pub use paths::raw_of_segment;
pub use paths::segment_of_raw;
pub use shape::BlendMode;
pub use shape::Kind;
pub use shape::KindV;
pub use shape::Shape;
pub use shape::ShapeV;
pub use shape::add_fill_model;
pub use shape::add_fill_stops_model;
pub use shape::add_stroke_model;
pub use shape::add_stroke_stops_model;
pub use shape::lemma_fill_append_last;
pub use shape::lemma_fill_stops_append_in_order;
pub use shape::lemma_selrect_syncs_primitive_geometry;
pub use shape::lemma_set_bool_type_preserves_path;
pub use shape::new_shape_model;
pub use shape::set_bool_type_model;
pub use shape::set_path_segments_model;
pub use shape::set_selrect_model;
pub use shape::set_stroke_fill_model;
pub use strokes::Stroke;
pub use strokes::StrokeCap;
pub use strokes::StrokeJoin;
pub use strokes::StrokeV;
pub use strokes::strokes_view;
