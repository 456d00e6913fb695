use vclip_media::encoding::EncodingConfig;
use vclip_media::stacking::{build_ffmpeg_args, StackingConfig};

#[test]
fn test_default_stacking_config() {
    let config = StackingConfig::default();
    assert_eq!(config.panel_width, 1080);
    assert_eq!(config.panel_height, 960);
}

#[test]
fn test_custom_stacking_config() {
    let config = StackingConfig::new(720, 640);
    assert_eq!(config.panel_width, 720);
    assert_eq!(config.panel_height, 640);
}

#[test]
fn test_vstack_filter_generation() {
    let config = StackingConfig::default();
    let filter = config.build_vstack_filter();

    assert!(filter.contains("scale=1080:960"));
    assert!(filter.contains("pad=1080:960"));
    assert!(filter.contains("setsar=1"));
    assert!(filter.contains("format=yuv420p"));
    assert!(filter.contains("vstack=inputs=2"));
}

#[test]
fn test_vstack_filter_custom_dimensions() {
    let config = StackingConfig::new(720, 480);
    let filter = config.build_vstack_filter();

    assert!(filter.contains("scale=720:480"));
    assert!(filter.contains("pad=720:480"));
}

fn encoding(crf: u8) -> EncodingConfig {
    EncodingConfig {
        codec: "libx264".to_string(),
        preset: "veryfast".to_string(),
        crf,
        audio_bitrate: "128k".to_string(),
    }
}

#[test]
fn vstack_filter_exact_text() {
    let filter = StackingConfig::new(720, 480).build_vstack_filter();
    assert_eq!(
        filter,
        "[0:v]setpts=PTS-STARTPTS,scale=720:480:force_original_aspect_ratio=decrease,pad=720:480:(ow-iw)/2:(oh-ih)/2,setsar=1,format=yuv420p[top];\
[1:v]setpts=PTS-STARTPTS,scale=720:480:force_original_aspect_ratio=decrease,pad=720:480:(ow-iw)/2:(oh-ih)/2,setsar=1,format=yuv420p[bottom];\
[top][bottom]vstack=inputs=2[vout]"
    );
}

#[test]
fn stack_command_uses_crf_two_above() {
    let args = StackingConfig::default().stack_command_args("top.mp4", "bottom.mp4", "out.mp4", &encoding(23));
    let crf_at = args.iter().position(|a| a == "-crf").unwrap();
    assert_eq!(args[crf_at + 1], "25");
    assert_eq!(args[0], "-y");
    assert_eq!(args[2], "top.mp4");
    assert_eq!(args[4], "bottom.mp4");
    assert_eq!(args.last().unwrap(), "out.mp4");
    let args = StackingConfig::default().stack_command_args("a", "b", "c", &encoding(254));
    let crf_at = args.iter().position(|a| a == "-crf").unwrap();
    assert_eq!(args[crf_at + 1], "255");
}

#[test]
fn build_ffmpeg_args_exact() {
    let args = build_ffmpeg_args("t.mp4", "b.mp4", "o.mp4", &encoding(20), "F", 22);
    let expected: Vec<&str> = vec![
        "-y", "-i", "t.mp4", "-i", "b.mp4", "-filter_complex", "F", "-map", "[vout]", "-map", "0:a?",
        "-c:v", "libx264", "-preset", "veryfast", "-crf", "22", "-c:a", "aac", "-b:a", "128k",
        "-pix_fmt", "yuv420p", "-movflags", "+faststart", "-shortest", "-map_metadata", "-1", "o.mp4",
    ];
    assert_eq!(args, expected);
}
