use raytracer::canvas::Canvas;
use raytracer::channels::Channels;
use raytracer::decimal::decimal_text;

type Rgb = (f32, f32, f32);

fn channel(value: f32) -> u8 {
    (value.clamp(0.0, 1.0) * 255.0).round() as u8
}

fn channels_of(color: Rgb) -> Channels {
    Channels::new(channel(color.0), channel(color.1), channel(color.2))
}

#[test]
fn test_canvas_to_ppm() {
    let mut canvas: Canvas<Rgb> = Canvas::new(5, 3, (0.0, 0.0, 0.0));

    let color1: Rgb = (1.0, 0.0, 0.0);
    let color2: Rgb = (0.0, 0.5, 0.0);
    let color3: Rgb = (0.0, 0.0, 1.0);

    canvas = canvas.write_pixel(0, 0, color1);
    canvas = canvas.write_pixel(2, 1, color2);
    canvas = canvas.write_pixel(4, 2, color3);

    let ppm: String = canvas.map(channels_of).canvas_to_ppm();

    let expected_output: String = "P3
5 3
255
255 0 0 0 0 0 0 0 0 0 0 0 0 0 0
0 0 0 0 0 0 0 128 0 0 0 0 0 0 0
0 0 0 0 0 0 0 0 0 0 0 0 0 0 255
"
    .to_string();

    assert_eq!(ppm, expected_output);
}

#[test]
fn ppm_of_channel_canvas() {
    let canvas: Canvas<Channels> = Canvas::new(2, 2, Channels::new(0, 0, 0))
        .write_pixel(1, 0, Channels::new(10, 200, 7))
        .write_pixel(0, 1, Channels::new(255, 255, 255));

    assert_eq!(
        canvas.canvas_to_ppm(),
        "P3\n2 2\n255\n0 0 0 10 200 7\n255 255 255 0 0 0\n"
    );
}

#[test]
fn ppm_header_counts_width_then_height() {
    let canvas: Canvas<Channels> = Canvas::new(1, 12, Channels::new(1, 2, 3));
    let ppm = canvas.canvas_to_ppm();

    assert!(ppm.starts_with("P3\n1 12\n255\n"));
    assert_eq!(ppm.lines().count(), 3 + 12);
    assert!(ppm.ends_with("1 2 3\n"));
}

#[test]
fn pixels_to_string_joins_rows_without_trailing_newline() {
    let canvas: Canvas<Channels> = Canvas::new(2, 2, Channels::new(9, 8, 7));

    assert_eq!(canvas.pixels_to_string(), "9 8 7 9 8 7\n9 8 7 9 8 7");
}

#[test]
fn ppm_of_empty_canvas() {
    let canvas: Canvas<Channels> = Canvas::new(0, 0, Channels::new(0, 0, 0));

    assert_eq!(canvas.pixels_to_string(), "");
    assert_eq!(canvas.canvas_to_ppm(), "P3\n0 0\n255\n\n");
}

#[test]
fn channels_text_min() {
    assert_eq!(Channels::new(0, 0, 0).to_text(), "0 0 0");
}

#[test]
fn channels_text_max() {
    assert_eq!(Channels::new(255, 255, 255).to_text(), "255 255 255");
}

#[test]
fn channels_text_mixed() {
    assert_eq!(Channels::new(128, 5, 40).to_text(), "128 5 40");
}

#[test]
fn push_text_appends() {
    let mut s = String::from("x:");
    Channels::new(1, 22, 103).push_text(&mut s);

    assert_eq!(s, "x:1 22 103");
}

#[test]
fn decimal_of_small_and_large_numbers() {
    assert_eq!(decimal_text(0), "0");
    assert_eq!(decimal_text(7), "7");
    assert_eq!(decimal_text(10), "10");
    assert_eq!(decimal_text(255), "255");
    assert_eq!(decimal_text(1234567890), "1234567890");
    assert_eq!(decimal_text(usize::MAX), usize::MAX.to_string());
}
