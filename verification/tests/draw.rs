use script_host::draw::{
    clear_background, color_from_channels, draw_circle, draw_text, Color, DrawCommand, Rejection,
    Scalar,
};

fn ints(values: &[i64]) -> Vec<Option<i64>> {
    values.iter().map(|value| Some(*value)).collect()
}

fn scalar(value: f64) -> Scalar {
    Scalar { bits: value.to_bits() }
}

#[test]
fn four_bytes_make_a_color() {
    assert_eq!(
        color_from_channels(&ints(&[1, 2, 3, 4])),
        Ok(Color { r: 1, g: 2, b: 3, a: 4 })
    );
    assert_eq!(
        color_from_channels(&ints(&[0, 255, 0, 255])),
        Ok(Color { r: 0, g: 255, b: 0, a: 255 })
    );
}

#[test]
fn a_color_of_the_wrong_length_is_rejected() {
    assert_eq!(color_from_channels(&ints(&[])), Err(Rejection::ColorLength { length: 0 }));
    assert_eq!(color_from_channels(&ints(&[1, 2, 3])), Err(Rejection::ColorLength { length: 3 }));
    assert_eq!(
        color_from_channels(&ints(&[1, 2, 3, 4, 5])),
        Err(Rejection::ColorLength { length: 5 })
    );
}

#[test]
fn a_channel_outside_a_byte_is_rejected() {
    assert_eq!(
        color_from_channels(&ints(&[256, 0, 0, 0])),
        Err(Rejection::ColorChannel { index: 0 })
    );
    assert_eq!(
        color_from_channels(&ints(&[0, -1, 0, 0])),
        Err(Rejection::ColorChannel { index: 1 })
    );
    assert_eq!(
        color_from_channels(&ints(&[0, 0, i64::MAX, 0])),
        Err(Rejection::ColorChannel { index: 2 })
    );
    assert_eq!(
        color_from_channels(&ints(&[0, 0, 0, i64::MIN])),
        Err(Rejection::ColorChannel { index: 3 })
    );
}

#[test]
fn a_channel_that_is_no_integer_is_rejected() {
    assert_eq!(
        color_from_channels(&vec![Some(1), None, Some(3), Some(4)]),
        Err(Rejection::ColorChannel { index: 1 })
    );
}

#[test]
fn the_first_bad_channel_is_the_one_reported() {
    assert_eq!(
        color_from_channels(&vec![Some(1), Some(300), None, Some(-4)]),
        Err(Rejection::ColorChannel { index: 1 })
    );
}

#[test]
fn the_length_is_checked_before_the_channels() {
    assert_eq!(
        color_from_channels(&vec![None, Some(300), None]),
        Err(Rejection::ColorLength { length: 3 })
    );
}

#[test]
fn clear_background_with_a_good_color() {
    assert_eq!(
        clear_background(&ints(&[0, 0, 0, 255])),
        Ok(DrawCommand::Clear { color: Color { r: 0, g: 0, b: 0, a: 255 } })
    );
}

#[test]
fn clear_background_draws_nothing_for_a_wrong_length() {
    for length in [0usize, 1, 2, 3, 5, 6, 40] {
        let channels = vec![Some(7); length];
        assert_eq!(clear_background(&channels), Err(Rejection::ColorLength { length }));
    }
}

#[test]
fn draw_circle_keeps_its_parameters() {
    assert_eq!(
        draw_circle(scalar(10.0), scalar(10.0), scalar(5.0), &ints(&[255, 0, 0, 255])),
        Ok(DrawCommand::Circle {
            x: scalar(10.0),
            y: scalar(10.0),
            radius: scalar(5.0),
            color: Color { r: 255, g: 0, b: 0, a: 255 },
        })
    );
}

#[test]
fn draw_circle_does_not_judge_the_radius() {
    let made = draw_circle(scalar(-1.5), scalar(f64::MAX), scalar(-3.0), &ints(&[1, 2, 3, 4]));
    assert_eq!(
        made,
        Ok(DrawCommand::Circle {
            x: scalar(-1.5),
            y: scalar(f64::MAX),
            radius: scalar(-3.0),
            color: Color { r: 1, g: 2, b: 3, a: 4 },
        })
    );
}

#[test]
fn draw_circle_draws_nothing_for_a_wrong_length() {
    for length in [0usize, 1, 2, 3, 5, 9] {
        let channels = vec![Some(7); length];
        assert_eq!(
            draw_circle(scalar(1.0), scalar(2.0), scalar(3.0), &channels),
            Err(Rejection::ColorLength { length })
        );
    }
}

#[test]
fn draw_text_keeps_its_parameters() {
    assert_eq!(
        draw_text("score", scalar(8.0), scalar(24.0), 24, &ints(&[255, 255, 255, 255])),
        Ok(DrawCommand::Text {
            text: "score".to_string(),
            x: scalar(8.0),
            y: scalar(24.0),
            font_size: 24,
            color: Color { r: 255, g: 255, b: 255, a: 255 },
        })
    );
}

#[test]
fn draw_text_accepts_a_font_size_of_zero() {
    assert!(draw_text("a", scalar(0.0), scalar(0.0), 0, &ints(&[0, 0, 0, 0])).is_ok());
}

#[test]
fn draw_text_rejects_empty_text() {
    assert_eq!(
        draw_text("", scalar(0.0), scalar(0.0), 12, &ints(&[0, 0, 0, 0])),
        Err(Rejection::EmptyText)
    );
}

#[test]
fn draw_text_rejects_a_negative_font_size() {
    assert_eq!(
        draw_text("a", scalar(0.0), scalar(0.0), -1, &ints(&[0, 0, 0, 0])),
        Err(Rejection::NegativeFontSize { size: -1 })
    );
}

#[test]
fn draw_text_draws_nothing_for_a_wrong_length() {
    for length in [0usize, 1, 2, 3, 5, 9] {
        let channels = vec![Some(7); length];
        assert_eq!(
            draw_text("a", scalar(1.0), scalar(2.0), 3, &channels),
            Err(Rejection::ColorLength { length })
        );
    }
}

#[test]
fn draw_text_reports_the_first_failing_check() {
    assert_eq!(
        draw_text("", scalar(0.0), scalar(0.0), -5, &ints(&[1])),
        Err(Rejection::EmptyText)
    );
    assert_eq!(
        draw_text("a", scalar(0.0), scalar(0.0), -5, &ints(&[1])),
        Err(Rejection::NegativeFontSize { size: -5 })
    );
    assert_eq!(
        draw_text("a", scalar(0.0), scalar(0.0), 5, &ints(&[1])),
        Err(Rejection::ColorLength { length: 1 })
    );
    assert_eq!(
        draw_text("a", scalar(0.0), scalar(0.0), 5, &ints(&[1, 2, 3, 400])),
        Err(Rejection::ColorChannel { index: 3 })
    );
}

#[test]
fn draw_text_counts_characters_not_bytes() {
    assert!(draw_text("é", scalar(0.0), scalar(0.0), 5, &ints(&[1, 2, 3, 4])).is_ok());
}
