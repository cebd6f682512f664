use shapes::BlendMode;
use shapes::BoolType;
use shapes::Color;
use shapes::Fill;
use shapes::Gradient;
use shapes::GradientStop;
use shapes::Kind;
use shapes::RawStopData;
use shapes::Rect;
use shapes::Shape;
use shapes::ShapeError;
use shapes::Stroke;
use shapes::StrokeCap;
use shapes::StrokeJoin;
use uuid::Uuid;

fn any_shape() -> Shape {
    Shape::new(Uuid::nil())
}

fn linear_fill() -> Fill {
    Fill::LinearGradient(Gradient::new())
}

#[test]
fn add_fill_pushes_a_new_fill() {
    let mut shape = any_shape();
    assert_eq!(shape.fills.len(), 0);

    shape.add_fill(Fill::Solid(Color::transparent()));
    assert_eq!(shape.fills.get(0), Some(&Fill::Solid(Color::transparent())))
}

#[test]
fn new_shape_has_documented_defaults() {
    let shape = any_shape();
    assert_eq!(shape.id, Uuid::nil());
    assert!(shape.children.is_empty());
    assert_eq!(
        shape.kind(),
        Kind::Rect(Rect { left: 0, top: 0, right: 0, bottom: 0 })
    );
    assert_eq!(shape.rotation, 0);
    assert!(shape.clip_content);
    assert!(shape.fills.is_empty());
    assert!(shape.strokes.is_empty());
    assert_eq!(shape.blend_mode, BlendMode::Normal);
    assert_eq!(shape.opacity, 255);
    assert!(!shape.hidden);
}

#[test]
fn set_selrect_rewrites_rect_geometry() {
    let mut shape = any_shape();
    shape.set_selrect(1, 2, 30, 40);
    assert_eq!(
        shape.kind(),
        Kind::Rect(Rect { left: 1, top: 2, right: 30, bottom: 40 })
    );
    assert_eq!(shape.selrect, Rect { left: 1, top: 2, right: 30, bottom: 40 });
}

#[test]
fn set_selrect_rewrites_circle_geometry() {
    let mut shape = any_shape();
    shape.set_kind(Kind::Circle(Rect { left: 0, top: 0, right: 0, bottom: 0 }));
    shape.set_selrect(-5, -6, 7, 8);
    assert_eq!(
        shape.kind(),
        Kind::Circle(Rect { left: -5, top: -6, right: 7, bottom: 8 })
    );
}

#[test]
fn set_selrect_leaves_path_geometry_alone() {
    let mut shape = any_shape();
    shape.set_bool_type(BoolType::Difference);
    shape.set_selrect(1, 1, 2, 2);
    match shape.kind() {
        Kind::Bool(op, p) => {
            assert_eq!(op, BoolType::Difference);
            assert!(p.segments.is_empty());
        }
        k => panic!("expected a boolean kind, got {:?}", k),
    }
    assert_eq!(shape.selrect, Rect { left: 1, top: 1, right: 2, bottom: 2 });
}

#[test]
fn fills_reports_appended_fills_in_order() {
    let mut shape = any_shape();
    shape.add_fill(Fill::Solid(Color(7)));
    shape.add_fill(linear_fill());
    let fills = shape.fills();
    assert_eq!(fills.len(), 2);
    assert_eq!(fills[0], Fill::Solid(Color(7)));
    assert_eq!(fills[1], linear_fill());
    assert_eq!(fills.last(), Some(&linear_fill()));
}

#[test]
fn clear_fills_empties_the_list() {
    let mut shape = any_shape();
    shape.add_fill(Fill::Solid(Color(7)));
    shape.add_fill(Fill::Solid(Color(9)));
    shape.clear_fills();
    assert_eq!(shape.fills().len(), 0);
}

#[test]
fn fill_gradient_stops_need_a_fill() {
    let mut shape = any_shape();
    let r = shape.add_fill_gradient_stops(vec![RawStopData { color: 1, offset: 0 }]);
    assert_eq!(r, Err(ShapeError::PreconditionMissing));
}

#[test]
fn fill_gradient_stops_need_a_gradient() {
    let mut shape = any_shape();
    shape.add_fill(Fill::Solid(Color(1)));
    let r = shape.add_fill_gradient_stops(vec![RawStopData { color: 1, offset: 0 }]);
    assert_eq!(r, Err(ShapeError::WrongVariant));
    assert_eq!(shape.fills()[0], Fill::Solid(Color(1)));
}

#[test]
fn fill_gradient_stops_append_in_given_order() {
    let mut shape = any_shape();
    shape.add_fill(Fill::Solid(Color(1)));
    shape.add_fill(Fill::RadialGradient(Gradient::new()));
    let r = shape.add_fill_gradient_stops(vec![
        RawStopData { color: 10, offset: 90 },
        RawStopData { color: 20, offset: 10 },
    ]);
    assert_eq!(r, Ok(()));
    let r = shape.add_fill_gradient_stops(vec![RawStopData { color: 30, offset: 50 }]);
    assert_eq!(r, Ok(()));
    match &shape.fills()[1] {
        Fill::RadialGradient(g) => {
            assert_eq!(
                g.stops,
                vec![
                    GradientStop { color: Color(10), offset: 90 },
                    GradientStop { color: Color(20), offset: 10 },
                    GradientStop { color: Color(30), offset: 50 },
                ]
            );
        }
        f => panic!("expected a radial gradient, got {:?}", f),
    }
    assert_eq!(shape.fills()[0], Fill::Solid(Color(1)));
}

#[test]
fn stroke_fill_needs_a_stroke() {
    let mut shape = any_shape();
    let r = shape.set_stroke_fill(Fill::Solid(Color(1)));
    assert_eq!(r, Err(ShapeError::PreconditionMissing));
}

#[test]
fn stroke_fill_replaces_last_stroke_paint() {
    let mut shape = any_shape();
    shape.add_stroke(Stroke::new(Fill::Solid(Color(1))));
    shape.add_stroke(Stroke {
        fill: Fill::Solid(Color(2)),
        width: 4,
        cap: StrokeCap::Round,
        join: StrokeJoin::Bevel,
    });
    let r = shape.set_stroke_fill(Fill::Solid(Color(3)));
    assert_eq!(r, Ok(()));
    let strokes = shape.strokes();
    assert_eq!(strokes.len(), 2);
    assert_eq!(strokes[0].fill, Fill::Solid(Color(1)));
    assert_eq!(strokes[1].fill, Fill::Solid(Color(3)));
    assert_eq!(strokes[1].width, 4);
    assert_eq!(strokes[1].cap, StrokeCap::Round);
    assert_eq!(strokes[1].join, StrokeJoin::Bevel);
}

#[test]
fn stroke_gradient_stops_follow_the_fill_contract() {
    let mut shape = any_shape();
    let r = shape.add_stroke_gradient_stops(vec![RawStopData { color: 1, offset: 0 }]);
    assert_eq!(r, Err(ShapeError::PreconditionMissing));

    shape.add_stroke(Stroke::new(Fill::Solid(Color(1))));
    let r = shape.add_stroke_gradient_stops(vec![RawStopData { color: 1, offset: 0 }]);
    assert_eq!(r, Err(ShapeError::WrongVariant));

    shape.add_stroke(Stroke::new(linear_fill()));
    let r = shape.add_stroke_gradient_stops(vec![
        RawStopData { color: 5, offset: 0 },
        RawStopData { color: 6, offset: 100 },
    ]);
    assert_eq!(r, Ok(()));
    match &shape.strokes()[1].fill {
        Fill::LinearGradient(g) => {
            assert_eq!(
                g.stops,
                vec![
                    GradientStop { color: Color(5), offset: 0 },
                    GradientStop { color: Color(6), offset: 100 },
                ]
            );
        }
        f => panic!("expected a linear gradient, got {:?}", f),
    }
    assert_eq!(shape.strokes()[0].fill, Fill::Solid(Color(1)));
}

#[test]
fn clear_strokes_empties_the_list() {
    let mut shape = any_shape();
    shape.add_stroke(Stroke::new(Fill::Solid(Color(1))));
    shape.clear_strokes();
    assert_eq!(shape.strokes().len(), 0);
}

#[test]
fn children_keep_insertion_order() {
    let mut shape = any_shape();
    let a = Uuid::from_u128(1);
    let b = Uuid::from_u128(2);
    shape.add_child(a);
    shape.add_child(b);
    assert_eq!(shape.children(), &vec![a, b]);
    shape.clear_children();
    assert!(shape.children().is_empty());
}

#[test]
fn plain_setters_write_their_fields() {
    let mut shape = any_shape();
    shape.set_clip(false);
    shape.set_rotation(45);
    shape.set_transform(2, 0, 0, 2, 10, 20);
    shape.set_opacity(128);
    shape.set_hidden(true);
    shape.set_blend_mode(BlendMode::Multiply);
    assert!(!shape.clip_content);
    assert_eq!(shape.rotation, 45);
    assert_eq!(shape.transform.a, 2);
    assert_eq!(shape.transform.e, 10);
    assert_eq!(shape.opacity, 128);
    assert!(shape.hidden);
    assert_eq!(shape.blend_mode, BlendMode::Multiply);
}

#[test]
fn raw_stop_data_extracts_color_and_offset() {
    let rec = RawStopData { color: 0xAABBCCDD, offset: 77 };
    assert_eq!(rec.color(), Color(0xAABBCCDD));
    assert_eq!(rec.offset(), 77);
}

#[test]
fn gradient_add_stop_appends() {
    let mut g = Gradient::new();
    g.add_stop(Color(1), 200);
    g.add_stop(Color(2), 0);
    assert_eq!(
        g.stops,
        vec![
            GradientStop { color: Color(1), offset: 200 },
            GradientStop { color: Color(2), offset: 0 },
        ]
    );
}
