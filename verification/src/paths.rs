//! Free-form path geometry: an ordered sequence of drawing commands,
//! reconstructed from a flat buffer of fixed-size segment records. A
//! malformed record fails the whole decode; no partial path is produced.

use crate::errors::ShapeError;
use vstd::prelude::*;

verus! {

/// One drawing command. Coordinates are plain integers in the host's
/// fixed-point encoding; a curve carries two control points and its endpoint.
#[derive(Debug, Clone, Copy, PartialEq, Eq, Structural)]
pub enum Segment {
    MoveTo(i32, i32),
    LineTo(i32, i32),
    CurveTo(i32, i32, i32, i32, i32, i32),
    Close,
}

/// One fixed-size segment record as the host hands it over: a command tag and
/// six coordinate slots. Tags 1 to 4 name move, line, curve and close; a
/// command reads only the leading slots it needs.
#[derive(Debug, Clone, Copy, PartialEq, Eq, Structural)]
pub struct RawPathData {
    pub tag: u16,
    pub x1: i32,
    pub y1: i32,
    pub x2: i32,
    pub y2: i32,
    pub x3: i32,
    pub y3: i32,
}

/// The command a single record decodes to, or `None` on an invalid tag.
pub open spec fn segment_of_raw(r: RawPathData) -> Option<Segment> {
    if r.tag == 1 {
        Some(Segment::MoveTo(r.x1, r.y1))
    } else if r.tag == 2 {
        Some(Segment::LineTo(r.x1, r.y1))
    } else if r.tag == 3 {
        Some(Segment::CurveTo(r.x1, r.y1, r.x2, r.y2, r.x3, r.y3))
    } else if r.tag == 4 {
        Some(Segment::Close)
    } else {
        None
    }
}

/// The command sequence a whole buffer decodes to, or `None` if any record
/// has an invalid tag.
pub open spec fn decode_segments(buffer: Seq<RawPathData>) -> Option<Seq<Segment>> {
    if forall|i: int| 0 <= i < buffer.len() ==> segment_of_raw(buffer[i]) is Some {
        Some(Seq::new(buffer.len(), |i: int| segment_of_raw(buffer[i]).unwrap()))
    } else {
        None
    }
}

/// The record a command derives back to. Coordinate slots the command does
/// not use are zero.
pub open spec fn raw_of_segment(s: Segment) -> RawPathData {
    match s {
        Segment::MoveTo(x, y) => RawPathData { tag: 1, x1: x, y1: y, x2: 0, y2: 0, x3: 0, y3: 0 },
        Segment::LineTo(x, y) => RawPathData { tag: 2, x1: x, y1: y, x2: 0, y2: 0, x3: 0, y3: 0 },
        Segment::CurveTo(x1, y1, x2, y2, x3, y3) => RawPathData { tag: 3, x1, y1, x2, y2, x3, y3 },
        Segment::Close => RawPathData { tag: 4, x1: 0, y1: 0, x2: 0, y2: 0, x3: 0, y3: 0 },
    }
}

/// The record buffer a whole command sequence derives back to.
pub open spec fn encode_segments(segments: Seq<Segment>) -> Seq<RawPathData> {
    segments.map_values(|s: Segment| raw_of_segment(s))
}

/// Deriving records from a command sequence and decoding them reproduces the
/// sequence exactly: the flat record format loses nothing.
pub proof fn lemma_segments_round_trip(segments: Seq<Segment>)
    ensures
        decode_segments(encode_segments(segments)) == Some(segments),
{
    let buf = encode_segments(segments);
    assert forall|i: int| 0 <= i < buf.len() implies segment_of_raw(buf[i]) is Some by {
        assert(buf[i] == raw_of_segment(segments[i]));
    }
    let decoded = decode_segments(buf).unwrap();
    assert forall|i: int| 0 <= i < buf.len() implies decoded[i] == segments[i] by {
        assert(buf[i] == raw_of_segment(segments[i]));
    }
    assert(decoded =~= segments);
}

/// A path: its ordered command sequence. Two paths are equal exactly when
/// their command sequences match, including order.
#[derive(Debug)]
pub struct Path {
    pub segments: Vec<Segment>,
}

impl View for Path {
    type V = Seq<Segment>;

    open spec fn view(&self) -> Seq<Segment> {
        self.segments@
    }
}

fn copy_segments(v: &Vec<Segment>) -> (r: Vec<Segment>)
    ensures
        r@ == v@,
{
    let mut r: Vec<Segment> = Vec::new();
    let mut i: usize = 0;
    while i < v.len()
        invariant
            i <= v.len(),
            r@ == v@.subrange(0, i as int),
        decreases v.len() - i,
    {
        r.push(v[i]);
        i = i + 1;
    }
    proof {
        assert(r@ == v@);
    }
    r
}

fn segments_eq(a: &Vec<Segment>, b: &Vec<Segment>) -> (r: bool)
    ensures
        r == (a@ == b@),
{
    if a.len() != b.len() {
        return false;
    }
    let mut i: usize = 0;
    while i < a.len()
        invariant
            i <= a.len(),
            a@.len() == b@.len(),
            forall|j: int| 0 <= j < i ==> a@[j] == b@[j],
        decreases a.len() - i,
    {
        if a[i] != b[i] {
            return false;
        }
        i = i + 1;
    }
    proof {
        assert(a@ == b@);
    }
    true
}

impl Default for Path {
    /// The empty path, with no commands.
    fn default() -> (r: Self)
        ensures
            r@ == Seq::<Segment>::empty(),
    {
        Path { segments: Vec::new() }
    }
}

impl Clone for Path {
    /// A clone carries the same command sequence.
    fn clone(&self) -> (r: Self)
        ensures
            r@ == self@,
    {
        Path { segments: copy_segments(&self.segments) }
    }
}

impl PartialEq for Path {
    fn eq(&self, other: &Self) -> (r: bool) {
        segments_eq(&self.segments, &other.segments)
    }
}

impl vstd::std_specs::cmp::PartialEqSpecImpl for Path {
    open spec fn obeys_eq_spec() -> bool {
        true
    }

    open spec fn eq_spec(&self, other: &Self) -> bool {
        self@ == other@
    }
}

impl Path {
    /// Decodes a flat record buffer into a path. Fails, producing no path,
    /// exactly when some record carries an invalid command tag.
    pub fn try_from(buffer: Vec<RawPathData>) -> (r: Result<Path, ShapeError>)
        ensures
            decode_segments(buffer@) matches Some(segs) ==> (r matches Ok(p) && p@ == segs),
            decode_segments(buffer@) is None <==> r == Err::<Path, ShapeError>(
                ShapeError::MalformedInput,
            ),
    {
        let mut segments: Vec<Segment> = Vec::new();
        let mut i: usize = 0;
        while i < buffer.len()
            invariant
                i <= buffer.len(),
                segments@.len() == i,
                forall|j: int| 0 <= j < i ==> segment_of_raw(buffer@[j]) is Some,
                forall|j: int|
                    0 <= j < i ==> segments@[j] == segment_of_raw(buffer@[j]).unwrap(),
            decreases buffer.len() - i,
        {
            let rec = buffer[i];
            if rec.tag == 1 {
                segments.push(Segment::MoveTo(rec.x1, rec.y1));
            } else if rec.tag == 2 {
                segments.push(Segment::LineTo(rec.x1, rec.y1));
            } else if rec.tag == 3 {
                segments.push(Segment::CurveTo(rec.x1, rec.y1, rec.x2, rec.y2, rec.x3, rec.y3));
            } else if rec.tag == 4 {
                segments.push(Segment::Close);
            } else {
                proof {
                    assert(segment_of_raw(buffer@[i as int]) is None);
                }
                return Err(ShapeError::MalformedInput);
            }
            i = i + 1;
        }
        proof {
            let segs = decode_segments(buffer@).unwrap();
            assert(segments@ =~= segs);
        }
        Ok(Path { segments })
    }

    /// Derives the flat record buffer the path's commands correspond to;
    /// decoding it again reproduces an equal path.
    pub fn to_raw_data(&self) -> (r: Vec<RawPathData>)
        ensures
            r@ == encode_segments(self@),
    {
        let mut r: Vec<RawPathData> = Vec::new();
        let mut i: usize = 0;
        while i < self.segments.len()
            invariant
                i <= self.segments.len(),
                r@.len() == i,
                forall|j: int| 0 <= j < i ==> r@[j] == raw_of_segment(self.segments@[j]),
            decreases self.segments.len() - i,
        {
            let rec = match self.segments[i] {
                Segment::MoveTo(x, y) => RawPathData {
                    tag: 1,
                    x1: x,
                    y1: y,
                    x2: 0,
                    y2: 0,
                    x3: 0,
                    y3: 0,
                },
                Segment::LineTo(x, y) => RawPathData {
                    tag: 2,
                    x1: x,
                    y1: y,
                    x2: 0,
                    y2: 0,
                    x3: 0,
                    y3: 0,
                },
                Segment::CurveTo(x1, y1, x2, y2, x3, y3) => RawPathData {
                    tag: 3,
                    x1,
                    y1,
                    x2,
                    y2,
                    x3,
                    y3,
                },
                Segment::Close => RawPathData {
                    tag: 4,
                    x1: 0,
                    y1: 0,
                    x2: 0,
                    y2: 0,
                    x3: 0,
                    y3: 0,
                },
            };
            r.push(rec);
            i = i + 1;
        }
        proof {
            assert(r@ =~= encode_segments(self@));
        }
        r
    }
}

} // verus!
