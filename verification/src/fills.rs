//! Paint descriptors: solid colors and multi-stop gradients. A gradient owns
//! an ordered, append-only list of stops; stops are never reordered,
//! deduplicated or validated here — the rasterization backend interprets them
//! as given.

use vstd::prelude::*;

verus! {

/// A packed RGBA color, fixed-width, in the host's encoding.
#[derive(Debug, Clone, Copy, PartialEq, Eq, Hash, Structural)]
pub struct Color(pub u32);

impl Color {
    /// The fully transparent color: all four channels zero.
    pub fn transparent() -> (c: Color)
        ensures
            c == (Color(0)),
    {
        Color(0)
    }
}

/// One gradient control point: a color at an offset along the ramp. The
/// offset is in hundredths of the normalized ramp; out-of-range values are
/// accepted as given.
#[derive(Debug, Clone, Copy, PartialEq, Eq, Structural)]
pub struct GradientStop {
    pub color: Color,
    pub offset: u8,
}

/// One fixed-size stop record as the host hands it over: a packed color and a
/// raw offset.
#[derive(Debug, Clone, Copy, PartialEq, Eq, Structural)]
pub struct RawStopData {
    pub color: u32,
    pub offset: u8,
}

impl RawStopData {
    /// The record's color as a typed value.
    pub fn color(&self) -> (c: Color)
        ensures
            c == (Color(self.color)),
    {
        Color(self.color)
    }

    /// The record's raw offset.
    pub fn offset(&self) -> (o: u8)
        ensures
            o == self.offset,
    {
        self.offset
    }
}

/// The typed stop a raw record extracts to: a pure, total conversion.
pub open spec fn stop_of_raw(r: RawStopData) -> GradientStop {
    GradientStop { color: Color(r.color), offset: r.offset }
}

/// The typed stops of a whole raw buffer, in the order given.
pub open spec fn stops_of_raw(buffer: Seq<RawStopData>) -> Seq<GradientStop> {
    buffer.map_values(|r: RawStopData| stop_of_raw(r))
}

/// A gradient ramp: its ordered list of stops. Whether the ramp is linear or
/// radial is carried by the enclosing [`Fill`] variant.
#[derive(Debug)]
pub struct Gradient {
    pub stops: Vec<GradientStop>,
}

impl View for Gradient {
    type V = Seq<GradientStop>;

    open spec fn view(&self) -> Seq<GradientStop> {
        self.stops@
    }
}

impl Gradient {
    /// A ramp with no stops yet.
    pub fn new() -> (g: Gradient)
        ensures
            g@ == Seq::<GradientStop>::empty(),
    {
        Gradient { stops: Vec::new() }
    }

    /// Appends one stop at the end of the ramp, preserving the order of all
    /// earlier stops.
    pub fn add_stop(&mut self, color: Color, offset: u8)
        ensures
            final(self)@ == old(self)@.push(GradientStop { color, offset }),
    {
        self.stops.push(GradientStop { color, offset });
    }
}

fn copy_stops(v: &Vec<GradientStop>) -> (r: Vec<GradientStop>)
    ensures
        r@ == v@,
{
    let mut r: Vec<GradientStop> = Vec::new();
    let mut i: usize = 0;
    while i < v.len()
        invariant
            i <= v.len(),
            r@ == v@.subrange(0, i as int),
        decreases v.len() - i,
    {
        r.push(v[i]);
        i = i + 1;
    }
    proof {
        assert(r@ == v@);
    }
    r
}

fn stops_eq(a: &Vec<GradientStop>, b: &Vec<GradientStop>) -> (r: bool)
    ensures
        r == (a@ == b@),
{
    if a.len() != b.len() {
        return false;
    }
    let mut i: usize = 0;
    while i < a.len()
        invariant
            i <= a.len(),
            a@.len() == b@.len(),
            forall|j: int| 0 <= j < i ==> a@[j] == b@[j],
        decreases a.len() - i,
    {
        if a[i] != b[i] {
            return false;
        }
        i = i + 1;
    }
    proof {
        assert(a@ == b@);
    }
    true
}

impl Clone for Gradient {
    /// A clone carries the same stop sequence.
    fn clone(&self) -> (r: Self)
        ensures
            r@ == self@,
    {
        Gradient { stops: copy_stops(&self.stops) }
    }
}

impl PartialEq for Gradient {
    fn eq(&self, other: &Self) -> (r: bool) {
        stops_eq(&self.stops, &other.stops)
    }
}

impl vstd::std_specs::cmp::PartialEqSpecImpl for Gradient {
    open spec fn obeys_eq_spec() -> bool {
        true
    }

    open spec fn eq_spec(&self, other: &Self) -> bool {
        self@ == other@
    }
}

/// Mathematical value of a [`Fill`]: the paint kind with the gradient reduced
/// to its stop sequence.
pub ghost enum FillV {
    Solid(Color),
    LinearGradient(Seq<GradientStop>),
    RadialGradient(Seq<GradientStop>),
}

/// A paint descriptor: a solid color, or a gradient ramp swept linearly or
/// radially.
#[derive(Debug)]
pub enum Fill {
    Solid(Color),
    LinearGradient(Gradient),
    RadialGradient(Gradient),
}

impl View for Fill {
    type V = FillV;

    open spec fn view(&self) -> FillV {
        match *self {
            Fill::Solid(c) => FillV::Solid(c),
            Fill::LinearGradient(g) => FillV::LinearGradient(g@),
            Fill::RadialGradient(g) => FillV::RadialGradient(g@),
        }
    }
}

/// The mathematical values of a whole fill list, in order.
pub open spec fn fills_view(fills: Seq<Fill>) -> Seq<FillV> {
    fills.map_values(|f: Fill| f@)
}

/// Whether a paint is a gradient of either sweep, the only paints whose stop
/// list can be extended.
pub open spec fn fill_is_gradient(f: FillV) -> bool {
    f is LinearGradient || f is RadialGradient
}

/// The paint with `stops` appended at the end of its ramp; a solid paint is
/// returned unchanged.
pub open spec fn fill_with_stops(f: FillV, stops: Seq<GradientStop>) -> FillV {
    match f {
        FillV::Solid(c) => FillV::Solid(c),
        FillV::LinearGradient(s) => FillV::LinearGradient(s + stops),
        FillV::RadialGradient(s) => FillV::RadialGradient(s + stops),
    }
}

impl Clone for Fill {
    /// A clone carries the same paint value.
    fn clone(&self) -> (r: Self)
        ensures
            r@ == self@,
    {
        match self {
            Fill::Solid(c) => Fill::Solid(*c),
            Fill::LinearGradient(g) => Fill::LinearGradient(g.clone()),
            Fill::RadialGradient(g) => Fill::RadialGradient(g.clone()),
        }
    }
}

impl PartialEq for Fill {
    fn eq(&self, other: &Self) -> (r: bool) {
        match (self, other) {
            (Fill::Solid(a), Fill::Solid(b)) => a == b,
            (Fill::LinearGradient(a), Fill::LinearGradient(b)) => a == b,
            (Fill::RadialGradient(a), Fill::RadialGradient(b)) => a == b,
            _ => false,
        }
    }
}

impl vstd::std_specs::cmp::PartialEqSpecImpl for Fill {
    open spec fn obeys_eq_spec() -> bool {
        true
    }

    open spec fn eq_spec(&self, other: &Self) -> bool {
        self@ == other@
    }
}

} // verus!
