//! The shape: the central scene-graph entity, holding identity, children,
//! geometry kind, bounds, transform, paint lists and compositing flags, and
//! the operations that mutate it.

use crate::bools::BoolType;
use crate::errors::ShapeError;
use crate::fills::Fill;
use crate::fills::FillV;
use crate::fills::Gradient;
use crate::fills::GradientStop;
use crate::fills::RawStopData;
use crate::fills::fill_is_gradient;
use crate::fills::fill_with_stops;
use crate::fills::fills_view;
use crate::fills::stop_of_raw;
use crate::fills::stops_of_raw;
use crate::math::Rect;
use crate::matrix::Matrix;
use crate::matrix::PathTransform;
use crate::matrix::compute_path_transform;
use crate::matrix::path_transform_model;
use crate::paths::Path;
use crate::paths::RawPathData;
use crate::paths::Segment;
use crate::paths::decode_segments;
use crate::strokes::Stroke;
use crate::strokes::StrokeV;
use crate::strokes::strokes_view;
use uuid::Uuid;
use vstd::prelude::*;

verus! {

/// Relies on uuid::Uuid as an opaque identifier: the shape only stores and
/// hands back such values, never reads inside them.
#[verifier::external_type_specification]
#[verifier::external_body]
pub struct ExUuid(Uuid);

/// Compositing mode applied when the shape is drawn over its backdrop. This
/// core only stores it; the rasterization backend interprets it.
#[derive(Debug, Clone, Copy, PartialEq, Eq, Structural)]
pub enum BlendMode {
    Normal,
    Darken,
    Multiply,
    ColorBurn,
    Lighten,
    Screen,
    ColorDodge,
    Overlay,
    SoftLight,
    HardLight,
    Difference,
    Exclusion,
    Hue,
    Saturation,
    Color,
    Luminosity,
}

impl Default for BlendMode {
    fn default() -> (r: Self)
        ensures
            r == BlendMode::Normal,
    {
        Self::Normal
    }
}

/// The geometry variant of a shape: an axis box, an ellipse in a box, a
/// free-form path, or a boolean-combined path that always carries its
/// operator, even over an empty path.
#[derive(Debug)]
pub enum Kind {
    Rect(Rect),
    Circle(Rect),
    Path(Path),
    Bool(BoolType, Path),
}

/// Mathematical value of a [`Kind`], with paths reduced to their command
/// sequences.
#[verifier::ext_equal]
pub ghost enum KindV {
    Rect(Rect),
    Circle(Rect),
    Path(Seq<Segment>),
    Bool(BoolType, Seq<Segment>),
}

impl View for Kind {
    type V = KindV;

    open spec fn view(&self) -> KindV {
        match *self {
            Kind::Rect(r) => KindV::Rect(r),
            Kind::Circle(r) => KindV::Circle(r),
            Kind::Path(p) => KindV::Path(p@),
            Kind::Bool(op, p) => KindV::Bool(op, p@),
        }
    }
}

impl Clone for Kind {
    /// A clone carries the same geometry value.
    fn clone(&self) -> (r: Self)
        ensures
            r@ == self@,
    {
        match self {
            Kind::Rect(r) => Kind::Rect(*r),
            Kind::Circle(r) => Kind::Circle(*r),
            Kind::Path(p) => Kind::Path(p.clone()),
            Kind::Bool(op, p) => Kind::Bool(*op, p.clone()),
        }
    }
}

impl PartialEq for Kind {
    fn eq(&self, other: &Self) -> (r: bool) {
        match (self, other) {
            (Kind::Rect(a), Kind::Rect(b)) => *a == *b,
            (Kind::Circle(a), Kind::Circle(b)) => *a == *b,
            (Kind::Path(a), Kind::Path(b)) => *a == *b,
            (Kind::Bool(a, p), Kind::Bool(b, q)) => *a == *b && *p == *q,
            _ => false,
        }
    }
}

impl vstd::std_specs::cmp::PartialEqSpecImpl for Kind {
    open spec fn obeys_eq_spec() -> bool {
        true
    }

    open spec fn eq_spec(&self, other: &Self) -> bool {
        self@ == other@
    }
}

/// A scene-graph node: geometry, transform and paint. Children are weak
/// references — identifiers into the surrounding scene graph, never owning
/// links — and their order is render order.
#[derive(Debug)]
pub struct Shape {
    pub id: Uuid,
    pub children: Vec<Uuid>,
    pub kind: Kind,
    pub selrect: Rect,
    pub transform: Matrix,
    pub rotation: i32,
    pub clip_content: bool,
    pub fills: Vec<Fill>,
    pub strokes: Vec<Stroke>,
    pub blend_mode: BlendMode,
    pub opacity: u8,
    pub hidden: bool,
}

/// Mathematical value of a [`Shape`]: every field reduced to its view.
#[verifier::ext_equal]
pub ghost struct ShapeV {
    pub id: Uuid,
    pub children: Seq<Uuid>,
    pub kind: KindV,
    pub selrect: Rect,
    pub transform: Matrix,
    pub rotation: i32,
    pub clip_content: bool,
    pub fills: Seq<FillV>,
    pub strokes: Seq<StrokeV>,
    pub blend_mode: BlendMode,
    pub opacity: u8,
    pub hidden: bool,
}

impl View for Shape {
    type V = ShapeV;

    open spec fn view(&self) -> ShapeV {
        ShapeV {
            id: self.id,
            children: self.children@,
            kind: self.kind@,
            selrect: self.selrect,
            transform: self.transform,
            rotation: self.rotation,
            clip_content: self.clip_content,
            fills: fills_view(self.fills@),
            strokes: strokes_view(self.strokes@),
            blend_mode: self.blend_mode,
            opacity: self.opacity,
            hidden: self.hidden,
        }
    }
}

/// The state of a freshly constructed shape: default and empty everywhere but
/// the identity.
pub open spec fn new_shape_model(id: Uuid) -> ShapeV {
    ShapeV {
        id,
        children: Seq::empty(),
        kind: KindV::Rect(Rect { left: 0, top: 0, right: 0, bottom: 0 }),
        selrect: Rect { left: 0, top: 0, right: 0, bottom: 0 },
        transform: Matrix { a: 1, b: 0, c: 0, d: 1, e: 0, f: 0 },
        rotation: 0,
        clip_content: true,
        fills: Seq::empty(),
        strokes: Seq::empty(),
        blend_mode: BlendMode::Normal,
        opacity: 255,
        hidden: false,
    }
}

/// The state after rewriting the bounds: the new box replaces `selrect`, and
/// a primitive kind's own box is rewritten to match, so geometry and bounds
/// stay consistent; path geometry is untouched.
pub open spec fn set_selrect_model(
    s: ShapeV,
    left: i32,
    top: i32,
    right: i32,
    bottom: i32,
) -> ShapeV {
    let rect = Rect { left, top, right, bottom };
    ShapeV {
        selrect: rect,
        kind: match s.kind {
            KindV::Rect(_) => KindV::Rect(rect),
            KindV::Circle(_) => KindV::Circle(rect),
            k => k,
        },
        ..s
    }
}

/// The state after appending a fill at the end of the list.
pub open spec fn add_fill_model(s: ShapeV, f: FillV) -> ShapeV {
    ShapeV { fills: s.fills.push(f), ..s }
}

/// The state after appending stops to the gradient of the most recently
/// added fill; meaningful only when that fill exists and is a gradient.
pub open spec fn add_fill_stops_model(s: ShapeV, stops: Seq<GradientStop>) -> ShapeV {
    ShapeV {
        fills: s.fills.update(
            s.fills.len() - 1,
            fill_with_stops(s.fills.last(), stops),
        ),
        ..s
    }
}

/// The state after appending a stroke at the end of the list.
pub open spec fn add_stroke_model(s: ShapeV, st: StrokeV) -> ShapeV {
    ShapeV { strokes: s.strokes.push(st), ..s }
}

/// The state after replacing the paint of the most recently added stroke;
/// meaningful only when that stroke exists.
pub open spec fn set_stroke_fill_model(s: ShapeV, f: FillV) -> ShapeV {
    ShapeV {
        strokes: s.strokes.update(
            s.strokes.len() - 1,
            StrokeV { fill: f, ..s.strokes.last() },
        ),
        ..s
    }
}

/// The state after appending stops to the gradient painting the most recently
/// added stroke; meaningful only when that stroke exists and its paint is a
/// gradient.
pub open spec fn add_stroke_stops_model(s: ShapeV, stops: Seq<GradientStop>) -> ShapeV {
    ShapeV {
        strokes: s.strokes.update(
            s.strokes.len() - 1,
            StrokeV {
                fill: fill_with_stops(s.strokes.last().fill, stops),
                ..s.strokes.last()
            },
        ),
        ..s
    }
}

/// The state after installing decoded path geometry: a boolean kind keeps its
/// operator and replaces only the path; any other kind becomes a plain path.
pub open spec fn set_path_segments_model(s: ShapeV, segments: Seq<Segment>) -> ShapeV {
    ShapeV {
        kind: match s.kind {
            KindV::Bool(op, _) => KindV::Bool(op, segments),
            _ => KindV::Path(segments),
        },
        ..s
    }
}

/// The state after setting the boolean operator: a boolean kind keeps its
/// path and replaces only the operator; any other kind becomes a boolean
/// combination of the empty path.
pub open spec fn set_bool_type_model(s: ShapeV, op: BoolType) -> ShapeV {
    ShapeV {
        kind: match s.kind {
            KindV::Bool(_, p) => KindV::Bool(op, p),
            _ => KindV::Bool(op, Seq::empty()),
        },
        ..s
    }
}

fn append_stops(g: &mut Gradient, buffer: &Vec<RawStopData>)
    ensures
        final(g)@ == old(g)@ + stops_of_raw(buffer@),
{
    let mut i: usize = 0;
    while i < buffer.len()
        invariant
            i <= buffer.len(),
            g@ == old(g)@ + stops_of_raw(buffer@.subrange(0, i as int)),
        decreases buffer.len() - i,
    {
        let rec = buffer[i];
        g.add_stop(rec.color(), rec.offset());
        proof {
            assert(stops_of_raw(buffer@.subrange(0, i as int + 1)) =~= stops_of_raw(
                buffer@.subrange(0, i as int),
            ).push(stop_of_raw(buffer@[i as int])));
            assert(g@ =~= old(g)@ + stops_of_raw(buffer@.subrange(0, i as int + 1)));
        }
        i = i + 1;
    }
    proof {
        assert(buffer@.subrange(0, buffer@.len() as int) =~= buffer@);
    }
}

impl Shape {
    /// A fresh shape under the given identity: an empty box at the origin,
    /// the identity transform, no children and no paint, clipping its
    /// children, fully opaque, visible, composited normally.
    pub fn new(id: Uuid) -> (s: Self)
        ensures
            s@ == new_shape_model(id),
    {
        let s = Shape {
            id,
            children: Vec::new(),
            kind: Kind::Rect(Rect::new_empty()),
            selrect: Rect::new_empty(),
            transform: Matrix::identity(),
            rotation: 0,
            clip_content: true,
            fills: Vec::new(),
            strokes: Vec::new(),
            blend_mode: BlendMode::default(),
            opacity: 255,
            hidden: false,
        };
        proof {
            assert(s@ =~= new_shape_model(id));
        }
        s
    }

    /// A value copy of the current geometry kind: a read-only snapshot, not a
    /// live view.
    pub fn kind(&self) -> (k: Kind)
        ensures
            k@ == self@.kind,
    {
        self.kind.clone()
    }

    /// Rewrites the bounding box; a primitive kind's geometry follows it.
    pub fn set_selrect(&mut self, left: i32, top: i32, right: i32, bottom: i32)
        ensures
            final(self)@ == set_selrect_model(old(self)@, left, top, right, bottom),
    {
        self.selrect.set_ltrb(left, top, right, bottom);
        match &self.kind {
            Kind::Rect(_) => {
                self.kind = Kind::Rect(self.selrect);
            },
            Kind::Circle(_) => {
                self.kind = Kind::Circle(self.selrect);
            },
            _ => {},
        }
        proof {
            assert(self@ =~= set_selrect_model(old(self)@, left, top, right, bottom));
        }
    }

    /// Replaces the geometry kind wholesale, discarding the previous one.
    pub fn set_kind(&mut self, kind: Kind)
        ensures
            final(self)@ == (ShapeV { kind: kind@, ..old(self)@ }),
    {
        self.kind = kind;
    }

    /// Sets whether children are clipped to this shape's bounds.
    pub fn set_clip(&mut self, value: bool)
        ensures
            final(self)@ == (ShapeV { clip_content: value, ..old(self)@ }),
    {
        self.clip_content = value;
    }

    /// Stores the separately tracked rotation angle; it does not participate
    /// in geometry derivation here.
    pub fn set_rotation(&mut self, angle: i32)
        ensures
            final(self)@ == (ShapeV { rotation: angle, ..old(self)@ }),
    {
        self.rotation = angle;
    }

    /// Replaces the affine transform with the six given parameters.
    pub fn set_transform(&mut self, a: i32, b: i32, c: i32, d: i32, e: i32, f: i32)
        ensures
            final(self)@ == (ShapeV { transform: Matrix { a, b, c, d, e, f }, ..old(self)@ }),
    {
        self.transform = Matrix::new(a, b, c, d, e, f);
    }

    /// Sets the opacity; 255 is fully opaque.
    pub fn set_opacity(&mut self, opacity: u8)
        ensures
            final(self)@ == (ShapeV { opacity, ..old(self)@ }),
    {
        self.opacity = opacity;
    }

    /// Sets the visibility flag.
    pub fn set_hidden(&mut self, value: bool)
        ensures
            final(self)@ == (ShapeV { hidden: value, ..old(self)@ }),
    {
        self.hidden = value;
    }

    /// Sets the compositing mode.
    pub fn set_blend_mode(&mut self, mode: BlendMode)
        ensures
            final(self)@ == (ShapeV { blend_mode: mode, ..old(self)@ }),
    {
        self.blend_mode = mode;
    }

    /// Appends a child identifier at the end of the render order.
    pub fn add_child(&mut self, id: Uuid)
        ensures
            final(self)@ == (ShapeV { children: old(self)@.children.push(id), ..old(self)@ }),
    {
        self.children.push(id);
    }

    /// Resets the child list to empty.
    pub fn clear_children(&mut self)
        ensures
            final(self)@ == (ShapeV { children: Seq::empty(), ..old(self)@ }),
    {
        self.children.clear();
    }

    /// The child identifiers in render order.
    pub fn children(&self) -> (r: &Vec<Uuid>)
        ensures
            r@ == self@.children,
    {
        &self.children
    }

    /// The fill list, bottom paint first: a read-only, order-preserving
    /// sequence reflecting the state at call time.
    pub fn fills(&self) -> (r: &Vec<Fill>)
        ensures
            fills_view(r@) == self@.fills,
    {
        &self.fills
    }

    /// Appends a fill at the end (topmost) of the fill list.
    pub fn add_fill(&mut self, f: Fill)
        ensures
            final(self)@ == add_fill_model(old(self)@, f@),
    {
        self.fills.push(f);
        proof {
            assert(self@ =~= add_fill_model(old(self)@, f@));
        }
    }

    /// Resets the fill list to empty.
    pub fn clear_fills(&mut self)
        ensures
            final(self)@ == (ShapeV { fills: Seq::empty(), ..old(self)@ }),
    {
        self.fills.clear();
        proof {
            assert(self@ =~= (ShapeV { fills: Seq::empty(), ..old(self)@ }));
        }
    }

    /// Appends stops, in the order given, to the gradient of the most
    /// recently added fill. Fails, leaving the shape unchanged, when the fill
    /// list is empty or when that fill is not a gradient.
    pub fn add_fill_gradient_stops(&mut self, buffer: Vec<RawStopData>) -> (r: Result<
        (),
        ShapeError,
    >)
        ensures
            old(self)@.fills.len() == 0 ==> (r == Err::<(), ShapeError>(
                ShapeError::PreconditionMissing,
            ) && final(self)@ == old(self)@),
            old(self)@.fills.len() > 0 && !fill_is_gradient(old(self)@.fills.last()) ==> (r
                == Err::<(), ShapeError>(ShapeError::WrongVariant) && final(self)@ == old(
                self,
            )@),
            old(self)@.fills.len() > 0 && fill_is_gradient(old(self)@.fills.last()) ==> (r
                == Ok::<(), ShapeError>(()) && final(self)@ == add_fill_stops_model(
                old(self)@,
                stops_of_raw(buffer@),
            )),
    {
        let fill = match self.fills.pop() {
            Some(f) => f,
            None => {
                return Err(ShapeError::PreconditionMissing);
            },
        };
        match fill {
            Fill::Solid(c) => {
                self.fills.push(Fill::Solid(c));
                proof {
                    assert(self@ =~= old(self)@);
                }
                Err(ShapeError::WrongVariant)
            },
            Fill::LinearGradient(mut g) => {
                append_stops(&mut g, &buffer);
                self.fills.push(Fill::LinearGradient(g));
                proof {
                    assert(self@ =~= add_fill_stops_model(old(self)@, stops_of_raw(buffer@)));
                }
                Ok(())
            },
            Fill::RadialGradient(mut g) => {
                append_stops(&mut g, &buffer);
                self.fills.push(Fill::RadialGradient(g));
                proof {
                    assert(self@ =~= add_fill_stops_model(old(self)@, stops_of_raw(buffer@)));
                }
                Ok(())
            },
        }
    }

    /// The stroke list, bottom outline first: a read-only, order-preserving
    /// sequence reflecting the state at call time.
    pub fn strokes(&self) -> (r: &Vec<Stroke>)
        ensures
            strokes_view(r@) == self@.strokes,
    {
        &self.strokes
    }

    /// Appends a stroke at the end of the stroke list.
    pub fn add_stroke(&mut self, s: Stroke)
        ensures
            final(self)@ == add_stroke_model(old(self)@, s@),
    {
        self.strokes.push(s);
        proof {
            assert(self@ =~= add_stroke_model(old(self)@, s@));
        }
    }

    /// Replaces the paint of the most recently added stroke. Fails, leaving
    /// the shape unchanged, when the stroke list is empty.
    pub fn set_stroke_fill(&mut self, f: Fill) -> (r: Result<(), ShapeError>)
        ensures
            old(self)@.strokes.len() == 0 ==> (r == Err::<(), ShapeError>(
                ShapeError::PreconditionMissing,
            ) && final(self)@ == old(self)@),
            old(self)@.strokes.len() > 0 ==> (r == Ok::<(), ShapeError>(()) && final(self)@
                == set_stroke_fill_model(old(self)@, f@)),
    {
        let stroke = match self.strokes.pop() {
            Some(s) => s,
            None => {
                return Err(ShapeError::PreconditionMissing);
            },
        };
        self.strokes.push(Stroke { fill: f, ..stroke });
        proof {
            assert(self@ =~= set_stroke_fill_model(old(self)@, f@));
        }
        Ok(())
    }

    /// Appends stops, in the order given, to the gradient painting the most
    /// recently added stroke. Fails, leaving the shape unchanged, when the
    /// stroke list is empty or when that stroke's paint is not a gradient.
    pub fn add_stroke_gradient_stops(&mut self, buffer: Vec<RawStopData>) -> (r: Result<
        (),
        ShapeError,
    >)
        ensures
            old(self)@.strokes.len() == 0 ==> (r == Err::<(), ShapeError>(
                ShapeError::PreconditionMissing,
            ) && final(self)@ == old(self)@),
            old(self)@.strokes.len() > 0 && !fill_is_gradient(old(self)@.strokes.last().fill)
                ==> (r == Err::<(), ShapeError>(ShapeError::WrongVariant) && final(self)@
                == old(self)@),
            old(self)@.strokes.len() > 0 && fill_is_gradient(old(self)@.strokes.last().fill)
                ==> (r == Ok::<(), ShapeError>(()) && final(self)@ == add_stroke_stops_model(
                old(self)@,
                stops_of_raw(buffer@),
            )),
    {
        let stroke = match self.strokes.pop() {
            Some(s) => s,
            None => {
                return Err(ShapeError::PreconditionMissing);
            },
        };
        match stroke.fill {
            Fill::Solid(c) => {
                self.strokes.push(Stroke { fill: Fill::Solid(c), ..stroke });
                proof {
                    assert(self@ =~= old(self)@);
                }
                Err(ShapeError::WrongVariant)
            },
            Fill::LinearGradient(mut g) => {
                append_stops(&mut g, &buffer);
                self.strokes.push(Stroke { fill: Fill::LinearGradient(g), ..stroke });
                proof {
                    assert(self@ =~= add_stroke_stops_model(old(self)@, stops_of_raw(buffer@)));
                }
                Ok(())
            },
            Fill::RadialGradient(mut g) => {
                append_stops(&mut g, &buffer);
                self.strokes.push(Stroke { fill: Fill::RadialGradient(g), ..stroke });
                proof {
                    assert(self@ =~= add_stroke_stops_model(old(self)@, stops_of_raw(buffer@)));
                }
                Ok(())
            },
        }
    }

    /// Resets the stroke list to empty.
    pub fn clear_strokes(&mut self)
        ensures
            final(self)@ == (ShapeV { strokes: Seq::empty(), ..old(self)@ }),
    {
        self.strokes.clear();
        proof {
            assert(self@ =~= (ShapeV { strokes: Seq::empty(), ..old(self)@ }));
        }
    }

    /// Decodes a flat segment buffer and installs it as the shape's path
    /// geometry: a boolean kind keeps its operator, any other kind becomes a
    /// plain path. Fails, leaving the shape unchanged, exactly when the
    /// buffer is malformed; no partial path is installed.
    pub fn set_path_segments(&mut self, buffer: Vec<RawPathData>) -> (r: Result<(), ShapeError>)
        ensures
            decode_segments(buffer@) is None ==> (r == Err::<(), ShapeError>(
                ShapeError::MalformedInput,
            ) && final(self)@ == old(self)@),
            decode_segments(buffer@) matches Some(segs) ==> (r == Ok::<(), ShapeError>(())
                && final(self)@ == set_path_segments_model(old(self)@, segs)),
    {
        let p = match Path::try_from(buffer) {
            Ok(p) => p,
            Err(e) => {
                return Err(e);
            },
        };
        let kind = match &self.kind {
            Kind::Bool(op, _) => Kind::Bool(*op, p),
            _ => Kind::Path(p),
        };
        self.kind = kind;
        Ok(())
    }

    /// Sets the boolean combination operator: a boolean kind keeps its path
    /// and replaces only the operator; any other kind becomes a boolean
    /// combination of the empty path.
    pub fn set_bool_type(&mut self, bool_type: BoolType)
        ensures
            final(self)@ == set_bool_type_model(old(self)@, bool_type),
    {
        let kind = match &self.kind {
            Kind::Bool(_, path) => Kind::Bool(bool_type, path.clone()),
            _ => Kind::Bool(bool_type, Path::default()),
        };
        self.kind = kind;
    }

    /// The matrix that maps the shape's transformed path coordinates back
    /// into its neutral, axis-aligned frame anchored at the center of its
    /// bounds — the frame in which boolean path operations are correct.
    /// Defined only for path-like kinds; for a primitive kind, and for a
    /// shape whose translation-stripped transform is singular, there is no
    /// such matrix and `None` is returned for the caller to handle.
    pub fn to_path_transform(&self) -> (r: Option<PathTransform>)
        ensures
            self@.kind is Rect || self@.kind is Circle ==> r is None,
            self@.kind is Path || self@.kind is Bool ==> {
                &&& self@.transform.linear_det() == 0 <==> r is None
                &&& (r matches Some(pt) ==> pt@ == path_transform_model(
                    self@.transform,
                    self@.selrect,
                ))
            },
    {
        match &self.kind {
            Kind::Path(_) => compute_path_transform(&self.transform, &self.selrect),
            Kind::Bool(_, _) => compute_path_transform(&self.transform, &self.selrect),
            _ => None,
        }
    }
}

/// Rewriting the bounds of a primitive shape rewrites the geometry box to the
/// same four edges and never changes which kind the shape is.
pub proof fn lemma_selrect_syncs_primitive_geometry(
    s: ShapeV,
    left: i32,
    top: i32,
    right: i32,
    bottom: i32,
)
    requires
        s.kind is Rect || s.kind is Circle,
    ensures
        s.kind is Rect ==> set_selrect_model(s, left, top, right, bottom).kind == KindV::Rect(
            Rect { left, top, right, bottom },
        ),
        s.kind is Circle ==> set_selrect_model(s, left, top, right, bottom).kind == KindV::Circle(
            Rect { left, top, right, bottom },
        ),
{
}

/// Appending a fill leaves it as the last element of the fill list, with
/// every earlier fill still in place.
pub proof fn lemma_fill_append_last(s: ShapeV, f: FillV)
    ensures
        add_fill_model(s, f).fills.len() == s.fills.len() + 1,
        add_fill_model(s, f).fills.last() == f,
        forall|i: int| 0 <= i < s.fills.len() ==> add_fill_model(s, f).fills[i] == s.fills[i],
{
}

/// Appending gradient stops to the last fill extends that gradient's stop
/// list by exactly the stops given, in the order given, leaving every earlier
/// stop and every other fill in place.
pub proof fn lemma_fill_stops_append_in_order(s: ShapeV, stops: Seq<GradientStop>)
    requires
        s.fills.len() > 0,
    ensures
        add_fill_stops_model(s, stops).fills.len() == s.fills.len(),
        add_fill_stops_model(s, stops).fills.last() == fill_with_stops(s.fills.last(), stops),
        forall|i: int|
            0 <= i < s.fills.len() - 1 ==> add_fill_stops_model(s, stops).fills[i] == s.fills[i],
        s.fills.last() matches FillV::LinearGradient(old_stops)
            ==> add_fill_stops_model(s, stops).fills.last() == FillV::LinearGradient(
            old_stops + stops,
        ),
        s.fills.last() matches FillV::RadialGradient(old_stops)
            ==> add_fill_stops_model(s, stops).fills.last() == FillV::RadialGradient(
            old_stops + stops,
        ),
{
}

/// Setting the boolean operator twice in a row rewrites the operator each
/// time and preserves the boolean shape's path unchanged across both calls.
pub proof fn lemma_set_bool_type_preserves_path(s: ShapeV, op1: BoolType, op2: BoolType)
    requires
        s.kind is Bool,
    ensures
        set_bool_type_model(s, op1).kind == KindV::Bool(op1, s.kind->1),
        set_bool_type_model(set_bool_type_model(s, op1), op2).kind == KindV::Bool(
            op2,
            s.kind->1,
        ),
{
}

} // verus!
