use shapes::BoolType;
use shapes::Kind;
use shapes::Matrix;
use shapes::Path;
use shapes::RawPathData;
use shapes::Rect;
use shapes::Segment;
use shapes::Shape;
use shapes::ShapeError;
use uuid::Uuid;

fn any_shape() -> Shape {
    Shape::new(Uuid::nil())
}

fn raw(tag: u16, x1: i32, y1: i32) -> RawPathData {
    RawPathData { tag, x1, y1, x2: 0, y2: 0, x3: 0, y3: 0 }
}

#[test]
fn bool_type_decodes_in_range_tags() {
    assert_eq!(BoolType::from(0), BoolType::Union);
    assert_eq!(BoolType::from(1), BoolType::Difference);
    assert_eq!(BoolType::from(2), BoolType::Intersection);
    assert_eq!(BoolType::from(3), BoolType::Exclusion);
}

#[test]
fn bool_type_clamps_out_of_range_tags_to_union() {
    assert_eq!(BoolType::from(4), BoolType::Union);
    assert_eq!(BoolType::from(5), BoolType::Union);
    assert_eq!(BoolType::from(100), BoolType::Union);
    assert_eq!(BoolType::from(255), BoolType::Union);
}

#[test]
fn bool_type_defaults_to_union() {
    assert_eq!(BoolType::default(), BoolType::Union);
}

#[test]
fn set_bool_type_on_non_bool_kind_starts_empty() {
    let mut shape = any_shape();
    shape.set_bool_type(BoolType::Exclusion);
    assert_eq!(shape.kind(), Kind::Bool(BoolType::Exclusion, Path::default()));
}

#[test]
fn set_bool_type_twice_preserves_the_path() {
    let mut shape = any_shape();
    shape.set_bool_type(BoolType::Intersection);
    let buffer = vec![raw(1, 1, 2), raw(2, 3, 4), raw(4, 0, 0)];
    assert_eq!(shape.set_path_segments(buffer), Ok(()));
    let expected = vec![
        Segment::MoveTo(1, 2),
        Segment::LineTo(3, 4),
        Segment::Close,
    ];

    shape.set_bool_type(BoolType::Difference);
    match shape.kind() {
        Kind::Bool(op, p) => {
            assert_eq!(op, BoolType::Difference);
            assert_eq!(p.segments, expected);
        }
        k => panic!("expected a boolean kind, got {:?}", k),
    }

    shape.set_bool_type(BoolType::Union);
    match shape.kind() {
        Kind::Bool(op, p) => {
            assert_eq!(op, BoolType::Union);
            assert_eq!(p.segments, expected);
        }
        k => panic!("expected a boolean kind, got {:?}", k),
    }
}

#[test]
fn path_decodes_every_command() {
    let buffer = vec![
        raw(1, 10, 20),
        raw(2, 30, 40),
        RawPathData { tag: 3, x1: 1, y1: 2, x2: 3, y2: 4, x3: 5, y3: 6 },
        raw(4, 0, 0),
    ];
    let path = Path::try_from(buffer).expect("a well-formed buffer decodes");
    assert_eq!(
        path.segments,
        vec![
            Segment::MoveTo(10, 20),
            Segment::LineTo(30, 40),
            Segment::CurveTo(1, 2, 3, 4, 5, 6),
            Segment::Close,
        ]
    );
}

#[test]
fn path_decode_rejects_invalid_tags() {
    assert_eq!(
        Path::try_from(vec![raw(0, 1, 2)]),
        Err(ShapeError::MalformedInput)
    );
    assert_eq!(
        Path::try_from(vec![raw(1, 1, 2), raw(5, 0, 0)]),
        Err(ShapeError::MalformedInput)
    );
}

#[test]
fn path_round_trips_through_raw_records() {
    let buffer = vec![
        raw(1, -7, 8),
        RawPathData { tag: 3, x1: 9, y1: -1, x2: 0, y2: 2, x3: -3, y3: 4 },
        raw(2, 5, 5),
        raw(4, 0, 0),
    ];
    let path = Path::try_from(buffer).expect("a well-formed buffer decodes");
    let rederived = path.to_raw_data();
    let again = Path::try_from(rederived).expect("re-derived records decode");
    assert_eq!(again, path);
}

#[test]
fn path_equality_is_structural() {
    let a = Path::try_from(vec![raw(1, 1, 2), raw(2, 3, 4)]).unwrap();
    let b = Path::try_from(vec![raw(1, 1, 2), raw(2, 3, 4)]).unwrap();
    let reordered = Path::try_from(vec![raw(2, 3, 4), raw(1, 1, 2)]).unwrap();
    let other_command = Path::try_from(vec![raw(1, 1, 2), raw(1, 3, 4)]).unwrap();
    assert_eq!(a, b);
    assert_ne!(a, reordered);
    assert_ne!(a, other_command);
    assert_eq!(Path::default(), Path::default());
    assert_ne!(a, Path::default());
}

#[test]
fn set_path_segments_keeps_a_bool_operator() {
    let mut shape = any_shape();
    shape.set_bool_type(BoolType::Difference);
    assert_eq!(shape.set_path_segments(vec![raw(1, 1, 1)]), Ok(()));
    match shape.kind() {
        Kind::Bool(op, p) => {
            assert_eq!(op, BoolType::Difference);
            assert_eq!(p.segments, vec![Segment::MoveTo(1, 1)]);
        }
        k => panic!("expected a boolean kind, got {:?}", k),
    }
}

#[test]
fn set_path_segments_turns_other_kinds_into_path() {
    let mut shape = any_shape();
    assert_eq!(shape.set_path_segments(vec![raw(1, 1, 1)]), Ok(()));
    match shape.kind() {
        Kind::Path(p) => assert_eq!(p.segments, vec![Segment::MoveTo(1, 1)]),
        k => panic!("expected a path kind, got {:?}", k),
    }
}

#[test]
fn set_path_segments_rejects_malformed_buffers_whole() {
    let mut shape = any_shape();
    assert_eq!(shape.set_path_segments(vec![raw(1, 1, 1)]), Ok(()));
    let r = shape.set_path_segments(vec![raw(2, 9, 9), raw(7, 0, 0)]);
    assert_eq!(r, Err(ShapeError::MalformedInput));
    match shape.kind() {
        Kind::Path(p) => assert_eq!(p.segments, vec![Segment::MoveTo(1, 1)]),
        k => panic!("expected the previous path to survive, got {:?}", k),
    }
}

#[test]
fn path_transform_is_none_for_primitive_kinds() {
    let mut shape = any_shape();
    shape.set_selrect(0, 0, 10, 20);
    assert_eq!(shape.to_path_transform(), None);
    shape.set_kind(Kind::Circle(Rect { left: 0, top: 0, right: 10, bottom: 20 }));
    assert_eq!(shape.to_path_transform(), None);
}

#[test]
fn path_transform_fails_on_singular_transform() {
    let mut shape = any_shape();
    shape.set_bool_type(BoolType::Union);
    shape.set_selrect(0, 0, 10, 20);
    shape.set_transform(0, 0, 0, 0, 5, 5);
    assert_eq!(shape.to_path_transform(), None);
    shape.set_transform(2, 4, 1, 2, 0, 0);
    assert_eq!(shape.to_path_transform(), None);
}

#[test]
fn path_transform_of_pure_translation_is_identity() {
    let mut shape = any_shape();
    shape.set_bool_type(BoolType::Union);
    shape.set_selrect(0, 0, 10, 20);
    shape.set_transform(1, 0, 0, 1, 55, -44);
    let pt = shape.to_path_transform().expect("translation is invertible");
    assert_ne!(pt.den, 0);
    assert_eq!(pt.a, pt.den);
    assert_eq!(pt.b, 0);
    assert_eq!(pt.c, 0);
    assert_eq!(pt.d, pt.den);
    assert_eq!(pt.e, 0);
    assert_eq!(pt.f, 0);
}

#[test]
fn path_transform_of_double_scale_fixes_the_center() {
    let mut shape = any_shape();
    shape.set_selrect(0, 0, 10, 20);
    assert_eq!(shape.set_path_segments(vec![raw(1, 0, 0)]), Ok(()));
    shape.set_transform(2, 0, 0, 2, 7, 13);
    let pt = shape.to_path_transform().expect("a double scale is invertible");
    // The center is (sx / 2, sy / 2); the fixed-point equations below are the
    // image equations with all denominators cleared.
    let sx: i128 = 10;
    let sy: i128 = 20;
    assert_eq!(pt.a * sx + pt.c * sy + 2 * pt.e, pt.den * sx);
    assert_eq!(pt.b * sx + pt.d * sy + 2 * pt.f, pt.den * sy);
    // And concretely: the inverse of a 2x scale about the center.
    assert_eq!(pt.den, 8);
    assert_eq!((pt.a, pt.b, pt.c, pt.d), (4, 0, 0, 4));
    assert_eq!((pt.e, pt.f), (20, 40));
}

#[test]
fn path_transform_handles_extreme_coordinates() {
    let mut shape = any_shape();
    shape.set_selrect(i32::MIN, i32::MIN, i32::MAX, i32::MAX);
    assert_eq!(shape.set_path_segments(vec![raw(1, 0, 0)]), Ok(()));
    shape.set_transform(i32::MIN, 0, 0, i32::MIN, i32::MAX, i32::MIN);
    let pt = shape
        .to_path_transform()
        .expect("an extreme uniform scale is still invertible");
    let det = (i32::MIN as i128) * (i32::MIN as i128);
    assert_eq!(pt.den, 2 * det);
    // MIN + MAX = -1 on both axes, so the doubled center is (-1, -1); the
    // center stays fixed even at the edges of the coordinate range.
    let sx: i128 = -1;
    let sy: i128 = -1;
    assert_eq!(pt.a * sx + pt.c * sy + 2 * pt.e, pt.den * sx);
    assert_eq!(pt.b * sx + pt.d * sy + 2 * pt.f, pt.den * sy);
}

#[test]
fn matrix_helpers_build_the_documented_values() {
    assert_eq!(
        Matrix::identity(),
        Matrix { a: 1, b: 0, c: 0, d: 1, e: 0, f: 0 }
    );
    let m = Matrix::new(1, 2, 3, 4, 5, 6);
    assert_eq!(m, Matrix { a: 1, b: 2, c: 3, d: 4, e: 5, f: 6 });
    assert_eq!(
        m.no_translation(),
        Matrix { a: 1, b: 2, c: 3, d: 4, e: 0, f: 0 }
    );
}

#[test]
fn rect_set_ltrb_rewrites_all_edges() {
    let mut r = Rect::new_empty();
    assert_eq!(r, Rect { left: 0, top: 0, right: 0, bottom: 0 });
    r.set_ltrb(-1, -2, 3, 4);
    assert_eq!(r, Rect { left: -1, top: -2, right: 3, bottom: 4 });
}
