use vclip_media::output_format::{
    clamp_crop_to_frame, make_even, portrait_scale_filter, split_panel_scale_filter, PORTRAIT_HEIGHT,
    PORTRAIT_WIDTH, SPLIT_PANEL_HEIGHT, SPLIT_PANEL_WIDTH,
};

#[test]
fn test_portrait_dimensions() {
    assert_eq!(PORTRAIT_WIDTH, 1080);
    assert_eq!(PORTRAIT_HEIGHT, 1920);
    // Verify 9:16 aspect ratio
    let ratio = PORTRAIT_WIDTH as f64 / PORTRAIT_HEIGHT as f64;
    assert!((ratio - 0.5625).abs() < 0.001);
}

#[test]
fn test_split_dimensions() {
    assert_eq!(SPLIT_PANEL_WIDTH, 1080);
    assert_eq!(SPLIT_PANEL_HEIGHT, 960);
    // Two panels should equal portrait height
    assert_eq!(SPLIT_PANEL_HEIGHT * 2, PORTRAIT_HEIGHT);
}

#[test]
fn test_make_even() {
    assert_eq!(make_even(1080), 1080);
    assert_eq!(make_even(1081), 1080);
    assert_eq!(make_even(1079), 1078);
    assert_eq!(make_even(1), 0);
    assert_eq!(make_even(2), 2);
}

#[test]
fn test_clamp_crop_to_frame() {
    // Normal case - crop fits within frame
    let (x, y, w, h) = clamp_crop_to_frame(100, 100, 500, 800, 1920, 1080);
    assert_eq!((x, y, w, h), (100, 100, 500, 800));

    // Crop extends beyond right edge
    let (x, _y, w, _h) = clamp_crop_to_frame(1500, 100, 500, 800, 1920, 1080);
    assert_eq!(x, 1920 - 500); // Pushed left
    assert_eq!(w, 500);

    // Crop extends beyond bottom
    let (_x, y, _w, _h) = clamp_crop_to_frame(100, 500, 500, 800, 1920, 1080);
    assert_eq!(y, 1080 - 800); // Pushed up

    // Crop larger than frame
    let (x, y, w, h) = clamp_crop_to_frame(0, 0, 2000, 2000, 1920, 1080);
    assert_eq!(w, 1920);
    assert_eq!(h, 1080);
    assert_eq!(x, 0);
    assert_eq!(y, 0);

    // Odd dimensions should be made even
    let (_x, _y, w, h) = clamp_crop_to_frame(0, 0, 501, 801, 1920, 1080);
    assert_eq!(w, 500);
    assert_eq!(h, 800);
}

#[test]
fn test_portrait_scale_filter() {
    let filter = portrait_scale_filter();
    assert!(filter.contains("scale=1080:1920"));
    assert!(filter.contains("lanczos"));
    assert!(filter.contains("setsar=1"));
}

#[test]
fn test_split_panel_scale_filter() {
    let filter = split_panel_scale_filter();
    assert!(filter.contains("scale=1080:960"));
    assert!(filter.contains("pad=1080:960"));
    assert!(filter.contains("setsar=1"));
}

#[test]
fn test_crop_clamping() {
    let (x, y, w, h) = clamp_crop_to_frame(-10, -10, 100, 100, 1920, 1080);
    assert_eq!(x, 0);
    assert_eq!(y, 0);
    assert!(w <= 1920);
    assert!(h <= 1080);
}

#[test]
fn scale_filters_exact_text() {
    assert_eq!(
        portrait_scale_filter(),
        "scale=1080:1920:flags=lanczos,setsar=1"
    );
    assert_eq!(
        split_panel_scale_filter(),
        "scale=1080:960:flags=lanczos:force_original_aspect_ratio=decrease,pad=1080:960:(ow-iw)/2:(oh-ih)/2,setsar=1"
    );
}

#[test]
fn make_even_rounds_negatives_down() {
    assert_eq!(make_even(-1), -2);
    assert_eq!(make_even(-3), -4);
    assert_eq!(make_even(-4), -4);
    assert_eq!(make_even(0), 0);
}

#[test]
fn clamp_small_request_is_raised_to_two() {
    assert_eq!(clamp_crop_to_frame(5, 5, 1, 0, 1920, 1080), (5, 5, 2, 2));
}

#[test]
fn clamped_crop_stays_inside_frame() {
    let cases = [
        (1919, 1079, 3, 3),
        (-50, 2000, 700, 700),
        (1800, 900, 1921, 1081),
        (960, 540, 960, 540),
        (1920, 0, 1, 1),
        (1920, 1080, 0, -5),
    ];
    for (x, y, w, h) in cases {
        let (cx, cy, cw, ch) = clamp_crop_to_frame(x, y, w, h, 1920, 1080);
        assert!(cx >= 0 && cy >= 0);
        assert!(cx + cw <= 1920, "x {} w {}", cx, cw);
        assert!(cy + ch <= 1080, "y {} h {}", cy, ch);
        assert_eq!(cw % 2, 0);
        assert_eq!(ch % 2, 0);
    }
}

#[test]
fn clamp_minimum_crop_at_right_edge() {
    assert_eq!(clamp_crop_to_frame(1920, 0, 1, 1, 1920, 1080), (1918, 0, 2, 2));
}
