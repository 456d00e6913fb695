use vclip_media::encoding::EncodingConfig;
use vclip_media::error::MediaError;
use vclip_media::models::{compute_median_crop, crops_differ, group_segments, AspectRatio, CameraMode, CropWindow};
use vclip_media::render_commands::{
    crop_scale_filter, fit_panel_aspect, full_render_args, plan_full_render, speaker_split_filter,
    split_crop_geometry, split_render_args, two_panel_filter,
};

fn t(s: f64) -> u64 {
    s.to_bits()
}

#[test]
fn test_group_segments_static() {
    let windows = vec![
        CropWindow::new(t(0.0), 100, 100, 500, 500),
        CropWindow::new(t(1.0), 102, 101, 500, 500),
        CropWindow::new(t(2.0), 101, 100, 500, 500),
    ];

    let segments = group_segments(&windows);
    assert_eq!(segments.len(), 1); // Should be one segment
}

#[test]
fn test_group_segments_dynamic() {
    let windows = vec![
        CropWindow::new(t(0.0), 100, 100, 500, 500),
        CropWindow::new(t(1.0), 100, 100, 500, 500),
        CropWindow::new(t(2.0), 300, 300, 500, 500), // Big change
        CropWindow::new(t(3.0), 300, 300, 500, 500),
    ];

    let segments = group_segments(&windows);
    assert_eq!(segments.len(), 2); // Should be two segments
}

#[test]
fn renderer_test_median_crop() {
    let windows = vec![
        CropWindow::new(t(0.0), 100, 100, 500, 500),
        CropWindow::new(t(1.0), 200, 200, 600, 600),
        CropWindow::new(t(2.0), 150, 150, 550, 550),
    ];

    let median = compute_median_crop(&windows);
    assert_eq!(median.x, 150);
    assert_eq!(median.y, 150);
    assert_eq!(median.width, 550);
}

#[test]
fn single_pass_renderer_test_median_crop() {
    let windows = vec![
        CropWindow::new(t(0.0), 100, 100, 500, 900),
        CropWindow::new(t(1.0), 200, 150, 600, 1000),
        CropWindow::new(t(2.0), 150, 125, 550, 950),
    ];

    let median = compute_median_crop(&windows);
    assert_eq!(median.x, 150);
    assert_eq!(median.y, 125);
    assert_eq!(median.width, 550);
    assert_eq!(median.height, 950);
}

#[test]
fn test_empty_windows() {
    let windows: Vec<CropWindow> = vec![];
    let median = compute_median_crop(&windows);
    assert_eq!(median.width, 1080);
    assert_eq!(median.height, 1920);
}

#[test]
fn median_of_even_count_takes_upper_middle_per_coordinate() {
    let windows = vec![
        CropWindow::new(t(0.0), 40, 3, 10, 7),
        CropWindow::new(t(1.0), 10, 1, 40, 5),
        CropWindow::new(t(2.0), 30, 4, 20, 8),
        CropWindow::new(t(3.0), 20, 2, 30, 6),
    ];
    let m = compute_median_crop(&windows);
    assert_eq!((m.x, m.y, m.width, m.height), (30, 3, 30, 7));
    assert_eq!(m.time_bits, t(2.0));
}

#[test]
fn segments_cover_windows_in_order() {
    let windows = vec![
        CropWindow::new(t(0.0), 0, 0, 100, 100),
        CropWindow::new(t(1.0), 10, 0, 100, 100),
        CropWindow::new(t(2.0), 9, 0, 100, 100),
        CropWindow::new(t(3.0), 30, 0, 100, 100),
        CropWindow::new(t(4.0), 35, 0, 100, 100),
    ];
    let segs = group_segments(&windows);
    let bounds: Vec<(usize, usize)> = segs.iter().map(|s| (s.first, s.next)).collect();
    assert_eq!(bounds, vec![(0, 3), (3, 5)]);
    assert_eq!(segs[1].crop, windows[3]);
    assert!(group_segments(&vec![]).is_empty());
}

#[test]
fn crops_differ_threshold_is_a_tenth_of_width() {
    let a = CropWindow::new(0, 100, 100, 500, 500);
    assert!(!crops_differ(&a, &CropWindow::new(0, 150, 100, 500, 500)));
    assert!(crops_differ(&a, &CropWindow::new(0, 151, 100, 500, 500)));
    assert!(crops_differ(&a, &CropWindow::new(0, 100, 49, 500, 500)));
    assert!(crops_differ(&a, &CropWindow::new(0, 100, 100, 551, 500)));
    assert!(!crops_differ(&a, &CropWindow::new(0, 100, 100, 500, 5000)));
}

fn enc() -> EncodingConfig {
    EncodingConfig {
        codec: "libx264".to_string(),
        preset: "medium".to_string(),
        crf: 18,
        audio_bitrate: "192k".to_string(),
    }
}

#[test]
fn crop_scale_filter_text() {
    let c = CropWindow::new(0, 12, 34, 608, 1080);
    assert_eq!(crop_scale_filter(&c), "crop=608:1080:12:34,scale=1080:1920:flags=lanczos,setsar=1");
    let n = CropWindow::new(0, -4, 0, 10, 10);
    assert_eq!(crop_scale_filter(&n), "crop=10:10:-4:0,scale=1080:1920:flags=lanczos,setsar=1");
}

#[test]
fn full_render_plan() {
    match plan_full_render(&vec![], "in.mp4", "out.mp4", &enc()) {
        Err(MediaError::InvalidVideo(m)) => assert_eq!(m, "No crop windows provided"),
        other => panic!("unexpected {:?}", other),
    }
    let windows = vec![
        CropWindow::new(t(0.0), 100, 0, 608, 1080),
        CropWindow::new(t(1.0), 300, 0, 608, 1080),
        CropWindow::new(t(2.0), 200, 0, 608, 1080),
    ];
    let args = plan_full_render(&windows, "in.mp4", "out.mp4", &enc()).unwrap();
    let expected: Vec<&str> = vec![
        "-y", "-hide_banner", "-loglevel", "error", "-i", "in.mp4", "-vf",
        "crop=608:1080:200:0,scale=1080:1920:flags=lanczos,setsar=1", "-c:v", "libx264", "-preset",
        "medium", "-crf", "18", "-pix_fmt", "yuv420p", "-c:a", "aac", "-b:a", "192k", "-movflags",
        "+faststart", "out.mp4",
    ];
    assert_eq!(args, expected);
    assert_eq!(full_render_args("in.mp4", "out.mp4", "F", &enc())[7], "F");
}

#[test]
fn split_render_arguments() {
    let args = split_render_args("s.mp4", "o.mp4", "G", "vout", &enc());
    let expected: Vec<&str> = vec![
        "-y", "-hide_banner", "-loglevel", "error", "-i", "s.mp4", "-filter_complex", "G", "-map",
        "[vout]", "-map", "0:a?", "-c:v", "libx264", "-preset", "medium", "-crf", "18", "-pix_fmt",
        "yuv420p", "-c:a", "aac", "-b:a", "192k", "-movflags", "+faststart", "o.mp4",
    ];
    assert_eq!(args, expected);
}

#[test]
fn two_panel_graph_text() {
    let g = two_panel_filter((960, 853, 0, 113), (960, 853, 960, 0));
    assert_eq!(
        g,
        "[0:v]split=2[left_in][right_in];\
[left_in]crop=960:853:0:113,scale=1080:960:flags=lanczos,setsar=1,format=yuv420p[top];\
[right_in]crop=960:853:960:0,scale=1080:960:flags=lanczos,setsar=1,format=yuv420p[bottom];\
[top][bottom]vstack=inputs=2[vout]"
    );
}

#[test]
fn split_geometry_1080p() {
    let g = split_crop_geometry(1920, 1080);
    assert_eq!((g.half_width, g.crop_width, g.crop_height, g.vertical_margin), (960, 960, 853, 227));
    // Matches the floating-point rounding it stands for.
    let ch = ((960.0f64 * 8.0 / 9.0).round() as u32).min(1080);
    let cw = (ch as f64 * 1.125).round() as u32;
    assert_eq!((g.crop_width, g.crop_height), (cw, ch));
    let tall = split_crop_geometry(1920, 600);
    assert_eq!((tall.crop_height, tall.crop_width, tall.vertical_margin), (600, 675, 0));
}

#[test]
fn split_geometry_crop_fits_its_half() {
    // round(958 * 8 / 9) = 852 and round(852 * 9 / 8) = 959 > 958: capped.
    let g = split_crop_geometry(1916, 1080);
    assert_eq!((g.half_width, g.crop_width, g.crop_height), (958, 958, 852));
    for w in 2..2200u32 {
        let g = split_crop_geometry(w, 1080);
        assert!(g.crop_width <= g.half_width, "width {}", w);
    }
}

#[test]
fn panel_fit() {
    // Taller than 9:8: height trimmed, centred.
    assert_eq!(fit_panel_aspect(1000, 900), (1000, 889, 0, 5));
    // Wider than 9:8: width trimmed, centred.
    assert_eq!(fit_panel_aspect(1000, 800), (900, 800, 50, 0));
    // Exactly 9:8: unchanged.
    assert_eq!(fit_panel_aspect(900, 800), (900, 800, 0, 0));
}

#[test]
fn speaker_split_graph() {
    let g = speaker_split_filter(1920, 1080, (100, 50, 1000, 900), (1000, 50, 1000, 900));
    assert_eq!(
        g,
        "[0:v]split=2[left_in][right_in];\
[left_in]crop=1000:889:100:55,scale=1080:960:flags=lanczos,setsar=1,format=yuv420p[top];\
[right_in]crop=1000:889:920:55,scale=1080:960:flags=lanczos,setsar=1,format=yuv420p[bottom];\
[top][bottom]vstack=inputs=2[vout]"
    );
}

#[test]
fn aspect_ratios_and_modes() {
    assert_eq!(AspectRatio::portrait(), AspectRatio::new(9, 16));
    assert_eq!(AspectRatio::square().to_text(), "1:1");
    assert_eq!(AspectRatio::landscape().to_text(), "16:9");
    assert_ne!(CameraMode::Static, CameraMode::Tracking);
}
