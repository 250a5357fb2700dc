use montage::builder::BuildResult;
use montage::builder::ConstructionError;
use montage::builder::Profile;
use montage::builder::build_graph;
use montage::export::ExportSettings;
use montage::graph::ElementKind;
use montage::graph::PadDirection;
use montage::graph::PadKind;
use montage::project::Clip;
use montage::project::MediaType;
use montage::resolver::LinkOutcome;
use montage::resolver::resolve_pad;
use montage::sink::Frame;
use montage::sink::FrameSink;

fn clip(path: &str, media_type: MediaType, index: usize) -> Clip {
    Clip { path: path.to_string(), media_type, index }
}

fn video(path: &str, index: usize) -> Clip {
    clip(path, MediaType::Video, index)
}

#[test]
fn no_video_clips_is_an_error() {
    let clips = vec![clip("/a.mp3", MediaType::Audio, 0), clip("/b.png", MediaType::Image, 1)];
    let r = build_graph(&clips, None, &Profile::Preview);
    match r {
        Err(e) => assert_eq!(e, ConstructionError::NoClips),
        Ok(_) => panic!("expected NoClips"),
    }
}

#[test]
fn single_clip_preview_graph_shape() {
    let clips = vec![video("/a.mp4", 0)];
    let b = build_graph(&clips, None, &Profile::Preview).unwrap();
    assert_eq!(
        b.graph.elements,
        vec![
            ElementKind::Converter,
            ElementKind::Scaler,
            ElementKind::Sink,
            ElementKind::Converter,
            ElementKind::Scaler,
            ElementKind::Sink,
            ElementKind::Decoder { source: 0 },
        ]
    );
    assert_eq!(b.graph.pads.len(), 10);
    assert_eq!(b.graph.links.len(), 4);
    assert_eq!(b.sources, vec!["/a.mp4".to_string()]);
    assert_eq!(b.resolver.entries.len(), 1);
    let e = b.resolver.entries[0];
    assert_eq!(e.decoder, 6);
    // Single clip: the decoder feeds the converters directly.
    assert_eq!(e.video_target, Some(0));
    assert_eq!(e.audio_target, Some(3));
    assert!(!e.video_seen && !e.audio_seen);
}

#[test]
fn multi_clip_export_graph_shape() {
    let clips = vec![video("/a.mp4", 0), video("/b.mp4", 1), video("/c.mp4", 2)];
    let settings = ExportSettings::default();
    let b = build_graph(&clips, None, &Profile::Export(settings)).unwrap();
    assert_eq!(
        b.graph.elements,
        vec![
            ElementKind::Concat,
            ElementKind::Converter,
            ElementKind::Scaler,
            ElementKind::CapsFilter { width: 1920, height: 1080 },
            ElementKind::Encoder { bitrate: 5000 },
            ElementKind::Parser,
            ElementKind::Concat,
            ElementKind::Converter,
            ElementKind::Scaler,
            ElementKind::CapsFilter { width: 48000, height: 2 },
            ElementKind::Encoder { bitrate: 192_000 },
            ElementKind::Muxer,
            ElementKind::Decoder { source: 0 },
            ElementKind::Decoder { source: 1 },
            ElementKind::Decoder { source: 2 },
        ]
    );
    // The muxer has exactly one video input pad and one audio input pad.
    let mux_inputs: Vec<_> = b
        .graph
        .pads
        .iter()
        .filter(|p| p.element == 11 && matches!(p.direction, PadDirection::Sink))
        .collect();
    assert_eq!(mux_inputs.len(), 2);
    assert!(mux_inputs.iter().any(|p| matches!(p.kind, PadKind::Video)));
    assert!(mux_inputs.iter().any(|p| matches!(p.kind, PadKind::Audio)));
    // Multi-clip: every decoder feeds the shared concats.
    for (i, e) in b.resolver.entries.iter().enumerate() {
        assert_eq!(e.decoder, 12 + i);
        assert_eq!(e.video_target, Some(0));
        assert_eq!(e.audio_target, Some(6));
    }
    assert_eq!(b.graph.links.len(), 11);
}

#[test]
fn voiceover_bypasses_audio_concat() {
    let clips = vec![video("/a.mp4", 0), video("/b.mp4", 1)];
    let vo = "/voice.mp3".to_string();
    let settings = ExportSettings::default();
    let b = build_graph(&clips, Some(&vo), &Profile::Export(settings)).unwrap();
    // No audio concat: the audio chain starts at its converter (element 6).
    assert_eq!(b.graph.elements[6], ElementKind::Converter);
    let entries = &b.resolver.entries;
    assert_eq!(entries.len(), 3);
    // Clip decoders have no audio target at all.
    assert_eq!(entries[0].audio_target, None);
    assert_eq!(entries[1].audio_target, None);
    assert_eq!(entries[0].video_target, Some(0));
    // The voiceover decoder feeds the audio converter directly and carries
    // no video.
    assert_eq!(entries[2].video_target, None);
    assert_eq!(entries[2].audio_target, Some(6));
    assert_eq!(
        b.sources,
        vec!["/a.mp4".to_string(), "/b.mp4".to_string(), "/voice.mp3".to_string()]
    );
}

#[test]
fn non_video_clips_are_filtered_out() {
    let clips = vec![
        clip("/t.png", MediaType::Image, 0),
        video("/a.mp4", 1),
        clip("/m.mp3", MediaType::Audio, 2),
        video("/b.mp4", 3),
    ];
    let b = build_graph(&clips, None, &Profile::Preview).unwrap();
    assert_eq!(b.sources, vec!["/a.mp4".to_string(), "/b.mp4".to_string()]);
}

#[test]
fn resolver_links_first_video_pad() {
    let clips = vec![video("/a.mp4", 0), video("/b.mp4", 1)];
    let BuildResult { mut graph, mut resolver, .. } =
        build_graph(&clips, None, &Profile::Preview).unwrap();
    let pads_before = graph.pads.len();
    let links_before = graph.links.len();
    let decoder = resolver.entries[0].decoder;
    let outcome = resolve_pad(&mut graph, &mut resolver, decoder, PadKind::Video, true);
    assert_eq!(outcome, LinkOutcome::Linked { target: 0 });
    assert_eq!(graph.pads.len(), pads_before + 2);
    assert_eq!(graph.links.len(), links_before + 1);
    let link = graph.links[links_before];
    assert_eq!(graph.pads[link.from].element, decoder);
    assert_eq!(graph.pads[link.to].element, 0);
}

#[test]
fn resolver_drops_second_pad_of_same_kind() {
    let clips = vec![video("/a.mp4", 0), video("/b.mp4", 1)];
    let BuildResult { mut graph, mut resolver, .. } =
        build_graph(&clips, None, &Profile::Preview).unwrap();
    let decoder = resolver.entries[0].decoder;
    resolve_pad(&mut graph, &mut resolver, decoder, PadKind::Video, true);
    let links_after_first = graph.links.len();
    let outcome = resolve_pad(&mut graph, &mut resolver, decoder, PadKind::Video, true);
    assert_eq!(outcome, LinkOutcome::DroppedDuplicate);
    assert_eq!(graph.links.len(), links_after_first);
}

#[test]
fn resolver_leaves_pad_unconnected_on_link_failure() {
    let clips = vec![video("/a.mp4", 0)];
    let BuildResult { mut graph, mut resolver, .. } =
        build_graph(&clips, None, &Profile::Preview).unwrap();
    let decoder = resolver.entries[0].decoder;
    let links_before = graph.links.len();
    let outcome = resolve_pad(&mut graph, &mut resolver, decoder, PadKind::Video, false);
    assert_eq!(outcome, LinkOutcome::LinkFailed { target: 0 });
    assert_eq!(graph.links.len(), links_before);
}

#[test]
fn resolver_ignores_unknown_decoder() {
    let clips = vec![video("/a.mp4", 0)];
    let BuildResult { mut graph, mut resolver, .. } =
        build_graph(&clips, None, &Profile::Preview).unwrap();
    let outcome = resolve_pad(&mut graph, &mut resolver, 999, PadKind::Video, true);
    assert_eq!(outcome, LinkOutcome::Ignored);
}

#[test]
fn unexpected_audio_pad_is_ignored_and_frames_still_arrive() {
    // A preview whose clip decoders only wired a video target (the
    // voiceover claims the audio chain): an audio pad showing up on a clip
    // decoder stays unlinked, nothing breaks, and video frames still reach
    // the sink.
    let clips = vec![video("/a.mp4", 0), video("/b.mp4", 1)];
    let vo = "/voice.mp3".to_string();
    let BuildResult { mut graph, mut resolver, .. } =
        build_graph(&clips, Some(&vo), &Profile::Preview).unwrap();
    let decoder = resolver.entries[0].decoder;
    assert_eq!(resolver.entries[0].audio_target, None);
    let pads_before = graph.pads.len();
    let links_before = graph.links.len();
    let outcome = resolve_pad(&mut graph, &mut resolver, decoder, PadKind::Audio, true);
    assert_eq!(outcome, LinkOutcome::Ignored);
    assert_eq!(graph.pads.len(), pads_before);
    assert_eq!(graph.links.len(), links_before);
    // The video pad of the same decoder still links.
    let outcome = resolve_pad(&mut graph, &mut resolver, decoder, PadKind::Video, true);
    assert_eq!(outcome, LinkOutcome::Linked { target: 0 });
    // And the frame sink still takes frames.
    let mut sink = FrameSink::new();
    sink.store(Frame { data: vec![1, 2, 3, 4], width: 1, height: 1 });
    let got = sink.latest().expect("a frame should be stored");
    assert_eq!(got.data, vec![1, 2, 3, 4]);
    assert_eq!((got.width, got.height), (1, 1));
}
