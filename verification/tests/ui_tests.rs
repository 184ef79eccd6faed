use sensor_kit::display::DisplayList;
use sensor_kit::display::DrawCommand;
use sensor_kit::geometry::Point;
use sensor_kit::geometry::Rect;
use sensor_kit::geometry::Size;
use sensor_kit::style::Color;
use sensor_kit::style::FontMetrics;
use sensor_kit::ui::environment::TemperatureHumidityDisplay;
use sensor_kit::ui::filled_circle::FilledCircle;
use sensor_kit::ui::horizontal_bar::clamp_deci;
use sensor_kit::ui::horizontal_bar::HorizontalBar;
use sensor_kit::ui::layout::CenteredWithOffset;
use sensor_kit::ui::title_frame::TitleFrame;
use sensor_kit::ui::vector::Vector;
use sensor_kit::ui::vector_box::MilliVec2;
use sensor_kit::ui::vector_box::VectorBox;

fn rect(x: i32, y: i32, w: u32, h: u32) -> Rect {
    Rect::new(Point::new(x, y), Size::new(w, h))
}

#[test]
fn clamping_percentages() {
    assert_eq!(clamp_deci(-5), 0);
    assert_eq!(clamp_deci(0), 0);
    assert_eq!(clamp_deci(567), 567);
    assert_eq!(clamp_deci(1000), 1000);
    assert_eq!(clamp_deci(1001), 1000);
}

#[test]
fn bar_fill_is_left_anchored() {
    let bar = HorizontalBar::new(750, Color::On, rect(0, 0, 104, 20));
    let mut out = DisplayList::new();
    bar.draw(&mut out);
    let cmds = out.commands();
    assert_eq!(cmds[0], DrawCommand::RectOutline { rect: rect(0, 0, 104, 20) });
    assert_eq!(cmds[1], DrawCommand::RectFill { rect: rect(2, 2, 75, 16) });
}

#[test]
fn empty_bar_draws_no_fill() {
    let bar = HorizontalBar::new(0, Color::On, rect(0, 0, 104, 20));
    let mut out = DisplayList::new();
    bar.draw(&mut out);
    assert_eq!(out.commands().len(), 1);
}

#[test]
fn tiny_circle_collapses_its_fill() {
    let c = FilledCircle::new(
        1000,
        Color::On,
        sensor_kit::geometry::Circle::new(Point::new(0, 0), 4),
    );
    let mut out = DisplayList::new();
    c.draw(&mut out);
    match out.commands()[1] {
        DrawCommand::CircleFill { circle } => assert_eq!(circle.diameter, 0),
        ref cmd => panic!("unexpected command {cmd:?}"),
    }
}

#[test]
fn title_frame_areas() {
    let style = FontMetrics::new(10, 6);
    let frame = TitleFrame::new_with_area(
        "Buzzer".to_string(),
        style,
        Color::On,
        rect(0, 0, 128, 64),
    );
    assert_eq!(frame.area_below_title(), rect(0, 10, 128, 54));
    assert_eq!(frame.inner_area(), rect(5, 15, 118, 44));

    let mut out = DisplayList::new();
    frame.draw(&mut out);
    let cmds = out.commands();
    assert_eq!(
        cmds[0],
        DrawCommand::TitleText { text: "Buzzer".to_string(), anchor: Point::new(46, 0) }
    );
    assert_eq!(cmds[1], DrawCommand::RectOutline { rect: rect(3, 13, 122, 48) });
}

#[test]
fn short_display_collapses_the_content_region() {
    let style = FontMetrics::new(10, 6);
    let frame = TitleFrame::new_with_area("Led".to_string(), style, Color::On, rect(0, 0, 64, 8));
    assert_eq!(frame.area_below_title().size.height, 0);
}

#[test]
fn centered_with_offset_arranges_the_inner_area() {
    let c = CenteredWithOffset::new(rect(0, 0, 100, 100), rect(0, 0, 20, 10), Point::new(4, -6));
    let arranged = c.arrange();
    assert_eq!(arranged.inner, rect(44, 39, 20, 10));
    assert_eq!(arranged.bounds(), rect(0, 0, 100, 100));

    let wide = CenteredWithOffset::new(
        rect(0, 0, 10, 10),
        rect(0, 0, 30, 4),
        Point::new(0, 0),
    ).arrange();
    assert_eq!(wide.inner, rect(-10, 3, 30, 4));
    assert_eq!(wide.bounds(), rect(-10, 0, 30, 10));
}

#[test]
fn vector_draws_from_its_origin() {
    let v = Vector::new(Point::new(10, 10), Point::new(3, -4));
    assert_eq!(v.bounding_box(), rect(6, 6, 8, 8));
    let mut out = DisplayList::new();
    v.draw_styled(&mut out);
    assert_eq!(
        out.commands()[0],
        DrawCommand::Line { start: Point::new(10, 10), end: Point::new(13, 6) }
    );
}

#[test]
fn vector_box_scales_from_the_center() {
    let b = VectorBox::new(rect(0, 0, 100, 100), MilliVec2::new(500, -500), 1000);
    let mut out = DisplayList::new();
    b.draw_styled(&mut out);
    let cmds = out.commands();
    assert_eq!(cmds[0], DrawCommand::RectOutline { rect: rect(0, 0, 100, 100) });
    // The line may reach 45 pixels at full deflection; half deflection
    // reaches 22 from the center pixel (49, 49).
    assert_eq!(
        cmds[1],
        DrawCommand::Line { start: Point::new(49, 49), end: Point::new(71, 27) }
    );
}

#[test]
fn temperature_humidity_table() {
    let d = TemperatureHumidityDisplay::new(2150, 4475, FontMetrics::new(8, 5), rect(0, 0, 120, 60));
    let mut out = DisplayList::new();
    d.draw(&mut out);
    let values: Vec<String> = out
        .commands()
        .iter()
        .filter_map(|c| match c {
            DrawCommand::Text { text, .. } => Some(text.clone()),
            _ => None,
        })
        .collect();
    assert_eq!(
        values,
        vec!["Temp.:", "21.50°C", "Humidity:", "44.75%", "Pressure:", "??? kPa"]
    );
}
