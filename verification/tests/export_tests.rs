use montage::builder::ConstructionError;
use montage::export::ExportPlan;
use montage::export::ExportSettings;
use montage::export::ExportStrategy;
use montage::export::Letterbox;
use montage::export::ToolError;
use montage::export::concat_duration_ns;
use montage::export::concat_manifest;
use montage::export::expected_export_duration_ns;
use montage::export::interpret_tool_exit;
use montage::export::letterbox_geometry;
use montage::export::plan_export;
use montage::export::shortest_wins_ns;
use montage::export::stderr_tail;
use montage::export::tool_args;
use montage::project::Clip;
use montage::project::MediaType;

const SEC: u64 = 1_000_000_000;

fn video(path: &str, index: usize) -> Clip {
    Clip { path: path.to_string(), media_type: MediaType::Video, index }
}

fn manifest_path() -> String {
    "/scratch/concat.txt".to_string()
}

#[test]
fn export_without_video_clips_fails() {
    let clips = vec![Clip { path: "/m.mp3".to_string(), media_type: MediaType::Audio, index: 0 }];
    let r = plan_export(&clips, None, &ExportSettings::default(), true, &manifest_path());
    match r {
        Err(e) => assert_eq!(e, ConstructionError::NoClips),
        Ok(_) => panic!("expected NoClips"),
    }
}

#[test]
fn single_clip_export_goes_internal() {
    let clips = vec![video("/a.mp4", 0)];
    let p = plan_export(&clips, None, &ExportSettings::default(), true, &manifest_path()).unwrap();
    assert!(matches!(p.strategy, ExportStrategy::InternalSingle));
    assert!(!p.degraded);
}

#[test]
fn multi_clip_with_tool_goes_external() {
    let clips = vec![video("/a.mp4", 0), video("/b.mp4", 1)];
    let p = plan_export(&clips, None, &ExportSettings::default(), true, &manifest_path()).unwrap();
    assert!(!p.degraded);
    match p.strategy {
        ExportStrategy::External { manifest, args } => {
            assert_eq!(manifest, "file '/a.mp4'\nfile '/b.mp4'\n");
            assert!(args.contains(&"-f".to_string()));
            assert!(args.contains(&"concat".to_string()));
        }
        other => panic!("expected External, got {:?}", other),
    }
}

#[test]
fn tool_unavailable_with_two_clips_degrades_to_first_clip() {
    let clips = vec![video("/a.mp4", 0), video("/b.mp4", 1)];
    let p = plan_export(&clips, None, &ExportSettings::default(), false, &manifest_path()).unwrap();
    assert!(matches!(p.strategy, ExportStrategy::InternalFirstOnly));
    // The caller must log the degradation warning.
    assert!(p.degraded);
    // The export still succeeds, but only the first clip's duration comes
    // out.
    let durations = vec![7 * SEC, 9 * SEC];
    let d = expected_export_duration_ns(&p, &durations, None);
    assert_eq!(d, Some(7 * SEC));
}

#[test]
fn scenario_three_clips_sum_to_twelve_seconds() {
    // Clips of 5 s, 3 s and 4 s, no voiceover: one output of 12 s.
    let clips = vec![video("/a.mp4", 0), video("/b.mp4", 1), video("/c.mp4", 2)];
    let p = plan_export(&clips, None, &ExportSettings::default(), true, &manifest_path()).unwrap();
    let durations = vec![5 * SEC, 3 * SEC, 4 * SEC];
    let d = expected_export_duration_ns(&p, &durations, None);
    assert_eq!(d, Some(12 * SEC));
}

#[test]
fn voiceover_shorter_than_video_bounds_the_export() {
    let clips = vec![video("/a.mp4", 0), video("/b.mp4", 1)];
    let vo = "/voice.mp3".to_string();
    let p =
        plan_export(&clips, Some(&vo), &ExportSettings::default(), true, &manifest_path()).unwrap();
    let durations = vec![5 * SEC, 3 * SEC];
    // min(sum, voiceover) with the voiceover shorter.
    assert_eq!(expected_export_duration_ns(&p, &durations, Some(6 * SEC)), Some(6 * SEC));
    // And with the voiceover longer, the video sum stands.
    assert_eq!(expected_export_duration_ns(&p, &durations, Some(20 * SEC)), Some(8 * SEC));
}

#[test]
fn shortest_wins_formula() {
    assert_eq!(shortest_wins_ns(10, Some(3)), 3);
    assert_eq!(shortest_wins_ns(3, Some(10)), 3);
    assert_eq!(shortest_wins_ns(10, None), 10);
    assert_eq!(shortest_wins_ns(10, Some(10)), 10);
}

#[test]
fn concat_duration_sums() {
    assert_eq!(concat_duration_ns(&vec![1, 2, 3]), Some(6));
    assert_eq!(concat_duration_ns(&vec![]), Some(0));
}

#[test]
fn concat_duration_overflow_is_detected() {
    assert_eq!(concat_duration_ns(&vec![u64::MAX, 1]), None);
}

#[test]
fn manifest_lists_clips_in_order() {
    let paths = vec!["/x/a.mp4".to_string(), "/y/b.mp4".to_string()];
    assert_eq!(concat_manifest(&paths), "file '/x/a.mp4'\nfile '/y/b.mp4'\n");
    assert_eq!(concat_manifest(&vec![]), "");
}

#[test]
fn tool_args_without_voiceover() {
    let settings = ExportSettings::default();
    let args = tool_args(&settings, &manifest_path(), None);
    assert_eq!(
        args,
        vec![
            "-y",
            "-f",
            "concat",
            "-safe",
            "0",
            "-i",
            "/scratch/concat.txt",
            "-map",
            "0:v:0",
            "-map",
            "0:a:0?",
            "-vf",
            "scale=1920:1080:force_original_aspect_ratio=decrease,pad=1920:1080:(ow-iw)/2:(oh-ih)/2",
            "-b:v",
            "5000k",
            "-b:a",
            "192k",
            "output.mp4",
        ]
    );
}

#[test]
fn tool_args_with_voiceover_map_and_shortest() {
    let settings = ExportSettings {
        output_path: "/out/final.mp4".to_string(),
        width: 1280,
        height: 720,
        video_bitrate: 2500,
        audio_bitrate: 128,
    };
    let vo = "/voice.mp3".to_string();
    let args = tool_args(&settings, &manifest_path(), Some(&vo));
    assert_eq!(
        args,
        vec![
            "-y",
            "-f",
            "concat",
            "-safe",
            "0",
            "-i",
            "/scratch/concat.txt",
            "-i",
            "/voice.mp3",
            "-map",
            "0:v:0",
            "-map",
            "1:a:0",
            "-vf",
            "scale=1280:720:force_original_aspect_ratio=decrease,pad=1280:720:(ow-iw)/2:(oh-ih)/2",
            "-b:v",
            "2500k",
            "-b:a",
            "128k",
            "-shortest",
            "/out/final.mp4",
        ]
    );
}

#[test]
fn default_settings() {
    let s = ExportSettings::default();
    assert_eq!(s.output_path, "output.mp4");
    assert_eq!((s.width, s.height), (1920, 1080));
    assert_eq!(s.video_bitrate, 5000);
    assert_eq!(s.audio_bitrate, 192);
}

#[test]
fn letterbox_same_aspect_fills_target() {
    let l = letterbox_geometry(1280, 720, 1920, 1080);
    assert_eq!(
        l,
        Letterbox { scaled_width: 1920, scaled_height: 1080, pad_left: 0, pad_top: 0 }
    );
}

#[test]
fn letterbox_tall_source_gets_side_bars() {
    // 4:3 into a 16:9 target: full height, bars left and right.
    let l = letterbox_geometry(640, 480, 1920, 1080);
    assert_eq!(
        l,
        Letterbox { scaled_width: 1440, scaled_height: 1080, pad_left: 240, pad_top: 0 }
    );
}

#[test]
fn letterbox_wide_source_gets_top_bars() {
    // A very wide source: full width, bars above and below.
    let l = letterbox_geometry(1000, 200, 1920, 1080);
    assert_eq!(
        l,
        Letterbox { scaled_width: 1920, scaled_height: 384, pad_left: 0, pad_top: 348 }
    );
}

#[test]
fn stderr_tail_takes_last_nonempty_line() {
    let bytes = b"first line\nsecond line\nlast words\n\n\n".to_vec();
    assert_eq!(stderr_tail(&bytes), b"last words".to_vec());
}

#[test]
fn stderr_tail_without_trailing_newline() {
    let bytes = b"a\nfinal".to_vec();
    assert_eq!(stderr_tail(&bytes), b"final".to_vec());
}

#[test]
fn stderr_tail_of_empty_and_blank_input() {
    assert_eq!(stderr_tail(&Vec::new()), Vec::<u8>::new());
    assert_eq!(stderr_tail(&b"\n\n\n".to_vec()), Vec::<u8>::new());
}

#[test]
fn tool_exit_zero_is_success() {
    assert_eq!(interpret_tool_exit(0, &b"noise\n".to_vec()), Ok(()));
}

#[test]
fn tool_exit_nonzero_carries_stderr_tail() {
    let stderr = b"progress...\nConversion failed!\n".to_vec();
    let r = interpret_tool_exit(1, &stderr);
    match r {
        Err(ToolError::ToolExecutionFailed { exit_code, stderr_tail }) => {
            assert_eq!(exit_code, 1);
            assert_eq!(stderr_tail, b"Conversion failed!".to_vec());
        }
        other => panic!("expected ToolExecutionFailed, got {:?}", other),
    }
}

#[test]
fn degraded_plan_reports_voiceover_free_first_clip() {
    let clips = vec![video("/a.mp4", 0), video("/b.mp4", 1), video("/c.mp4", 2)];
    let p = plan_export(&clips, None, &ExportSettings::default(), false, &manifest_path()).unwrap();
    let plan = ExportPlan { strategy: p.strategy, degraded: p.degraded };
    let durations = vec![2 * SEC, 5 * SEC, 11 * SEC];
    assert_eq!(expected_export_duration_ns(&plan, &durations, None), Some(2 * SEC));
}
