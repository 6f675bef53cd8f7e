use greeting_card::color::Color;
use greeting_card::fps::{format_fps_centi, format_u64, report_fps};
use greeting_card::scene::{build_scene, Align, Entity, Position, Store, TextEntity, TextSegment};

fn white_segment(text: &str) -> TextSegment {
    TextSegment { value: text.to_string(), color: Color::make_white() }
}

/// A store holding one frame-rate display entity: a static label at
/// segment 0 and the numeric value at segment 1.
fn store_with_fps_entity(initial_value: &str) -> Store {
    Store {
        entities: vec![
            Entity::Camera,
            Entity::Text(TextEntity {
                segments: vec![white_segment("FPS: "), white_segment(initial_value)],
                font_path: "fonts/DejaVuSansMono.ttf".to_string(),
                font_size_pt: 30,
                align: Align::TopLeft,
                position: Position { left_px: 0, top_px: 0 },
                color_animated: false,
                fps: true,
            }),
        ],
    }
}

fn seg_values(store: &Store) -> Vec<Vec<String>> {
    store
        .entities
        .iter()
        .map(|e| match e {
            Entity::Camera => Vec::new(),
            Entity::Text(t) => t.segments.iter().map(|s| s.value.clone()).collect(),
        })
        .collect()
}

#[test]
fn formats_whole_numbers() {
    assert_eq!(format_u64(0), "0");
    assert_eq!(format_u64(7), "7");
    assert_eq!(format_u64(10), "10");
    assert_eq!(format_u64(59), "59");
    assert_eq!(format_u64(120340), "120340");
}

#[test]
fn formats_two_decimal_places() {
    assert_eq!(format_fps_centi(5988), "59.88");
    assert_eq!(format_fps_centi(0), "0.00");
    assert_eq!(format_fps_centi(5), "0.05");
    assert_eq!(format_fps_centi(100), "1.00");
    assert_eq!(format_fps_centi(6000), "60.00");
    assert_eq!(format_fps_centi(12345), "123.45");
}

#[test]
fn sample_is_written_to_segment_one() {
    let mut store = store_with_fps_entity("");
    // 59.876 frames per second, rounded to hundredths.
    let centi = (59.876_f64 * 100.0).round() as u64;
    report_fps(&mut store, Some(centi));
    match &store.entities[1] {
        Entity::Text(t) => {
            assert_eq!(t.segments[0].value, "FPS: ");
            assert_eq!(t.segments[1].value, "59.88");
        }
        Entity::Camera => panic!("expected the frame-rate text entity"),
    }
    assert!(store.is_well_formed());
}

#[test]
fn missing_sample_changes_nothing() {
    let mut store = store_with_fps_entity("0.00");
    let before = seg_values(&store);
    report_fps(&mut store, None);
    assert_eq!(seg_values(&store), before);

    report_fps(&mut store, Some(5988));
    report_fps(&mut store, None);
    match &store.entities[1] {
        Entity::Text(t) => assert_eq!(t.segments[1].value, "59.88"),
        Entity::Camera => panic!("expected the frame-rate text entity"),
    }
}

#[test]
fn reporter_is_inert_without_tagged_entities() {
    let mut store = build_scene();
    let before = seg_values(&store);
    for k in 0..10 {
        report_fps(&mut store, if k % 2 == 0 { Some(6000 + k) } else { None });
    }
    assert_eq!(seg_values(&store), before);
    assert_eq!(store.entities.len(), 3);
    assert!(matches!(store.entities[0], Entity::Camera));
}
