//! Graph builder: assembles a complete, internally consistent processing
//! graph for a requested profile, parameterized uniformly by clip count.
//!
//! Single clip: decode, convert, scale, then encode and mux (export) or the
//! app-visible sink (preview).  Multiple clips: one decode path per clip,
//! each feeding a shared concat per media kind, whose output feeds the single
//! downstream chain.  A voiceover bypasses the per-clip audio concat and is
//! decoded straight into the audio chain; decoder output pads are unknown
//! until runtime, so the builder only registers their downstream targets in
//! the pending-link registry consulted by the pad resolver.

use vstd::prelude::*;
use crate::export::ExportSettings;
use crate::graph::ElementKind;
use crate::graph::Graph;
use crate::graph::Link;
use crate::graph::Pad;
use crate::graph::PadDirection;
use crate::graph::PadKind;
use crate::project::Clip;
use crate::project::MediaType;
use crate::resolver::PendingEntry;
use crate::resolver::Resolver;
use crate::resolver::registry_wf;

verus! {

/// What a graph is built for: interactive playback with a live frame feed,
/// or an export to a single muxed output file.
#[derive(Clone, Debug)]
pub enum Profile {
    Preview,
    Export(ExportSettings),
}

/// Why a graph could not be built or run.  The builder itself reports
/// `NoClips`; the other two arise when the runtime engine cannot supply an
/// element for a format or refuses a link request.
#[derive(Clone, Copy, Debug, PartialEq, Eq, Structural)]
pub enum ConstructionError {
    /// The clip list holds no video clip.
    NoClips,
    /// The engine offers no decoder or encoder for a stream's format.
    UnsupportedCodec,
    /// The engine refused a link between two elements.
    LinkFailure,
}

/// A freshly built graph: its structure, the pending-link registry for its
/// decoders, and the file paths the decoders read, in decoder order.
#[derive(Clone, Debug)]
pub struct BuildResult {
    pub graph: Graph,
    pub resolver: Resolver,
    pub sources: Vec<String>,
}

/// The subsequence of clips that carry video, in order.
pub open spec fn spec_video_clips(clips: Seq<Clip>) -> Seq<Clip>
    decreases clips.len(),
{
    if clips.len() == 0 {
        Seq::empty()
    } else {
        spec_video_clips(clips.drop_last()) + (if clips.last().media_type is Video {
            seq![clips.last()]
        } else {
            Seq::empty()
        })
    }
}

/// The paths of the video clips, in order.
pub open spec fn spec_video_paths(clips: Seq<Clip>) -> Seq<Seq<char>> {
    spec_video_clips(clips).map_values(|c: Clip| c.path@)
}

/// The complete structure a build yields for `n` video clips (`n >= 1`) and
/// an optional voiceover: elements, pads, links, and registry entries, in
/// that order.  This is the single contract both profiles share.
pub open spec fn spec_build(profile: Profile, n: nat, vo: bool) -> (Seq<ElementKind>, Seq<Pad>, Seq<
    Link,
>, Seq<PendingEntry>) {
    let multi = n > 1;
    let export = profile is Export;
    let vw = match profile { Profile::Export(s) => s.width, Profile::Preview => 0u32 };
    let vh = match profile { Profile::Export(s) => s.height, Profile::Preview => 0u32 };
    let vbr = match profile { Profile::Export(s) => s.video_bitrate, Profile::Preview => 0u32 };
    let abr = match profile {
        Profile::Export(s) => (s.audio_bitrate * 1000) as u32,
        Profile::Preview => 0u32,
    };
    // Audio concat is present only when several clips feed the audio chain;
    // a voiceover bypasses it.
    let acp = multi && !vo;
    // Element indices.
    let vconv: int = if multi { 1 } else { 0 };
    let vscale = vconv + 1;
    let vtail = vconv + 2;  // caps filter (export) or sink (preview)
    let venc = vconv + 3;
    let vparse = vconv + 4;
    let abase = vconv + (if export { 5int } else { 3 });
    let aconv = abase + (if acp { 1int } else { 0 });
    let ascale = aconv + 1;
    let atail = aconv + 2;  // caps filter (export) or sink (preview)
    let aenc = aconv + 3;
    let muxi = aconv + (if export { 4int } else { 3 });
    let nstatic = muxi + (if export { 1int } else { 0 });
    let elements = (if multi { seq![ElementKind::Concat] } else { Seq::empty() }) + seq![
        ElementKind::Converter,
        ElementKind::Scaler,
    ] + (if export {
        seq![
            ElementKind::CapsFilter { width: vw, height: vh },
            ElementKind::Encoder { bitrate: vbr },
            ElementKind::Parser,
        ]
    } else {
        seq![ElementKind::Sink]
    }) + (if acp { seq![ElementKind::Concat] } else { Seq::empty() }) + seq![
        ElementKind::Converter,
        ElementKind::Scaler,
    ] + (if export {
        seq![
            ElementKind::CapsFilter { width: 48000, height: 2 },
            ElementKind::Encoder { bitrate: abr },
        ]
    } else {
        seq![ElementKind::Sink]
    }) + (if export { seq![ElementKind::Muxer] } else { Seq::empty() }) + Seq::new(
        n,
        |i: int| ElementKind::Decoder { source: i as usize },
    ) + (if vo { seq![ElementKind::Decoder { source: n as usize }] } else { Seq::empty() });
    // Pad indices.
    let pv = if multi { 1int } else { 0 };  // video converter sink pad
    let pvlen = pv + (if export { 11int } else { 5 });
    let pa = pvlen + (if acp { 1int } else { 0 });  // audio converter sink pad
    let pads = (if multi {
        seq![
            Pad { element: 0, kind: PadKind::Video, direction: PadDirection::Src },
        ]
    } else {
        Seq::empty()
    }) + seq![
        Pad { element: vconv as usize, kind: PadKind::Video, direction: PadDirection::Sink },
        Pad { element: vconv as usize, kind: PadKind::Video, direction: PadDirection::Src },
        Pad { element: vscale as usize, kind: PadKind::Video, direction: PadDirection::Sink },
        Pad { element: vscale as usize, kind: PadKind::Video, direction: PadDirection::Src },
        Pad { element: vtail as usize, kind: PadKind::Video, direction: PadDirection::Sink },
    ] + (if export {
        seq![
            Pad { element: vtail as usize, kind: PadKind::Video, direction: PadDirection::Src },
            Pad { element: venc as usize, kind: PadKind::Video, direction: PadDirection::Sink },
            Pad { element: venc as usize, kind: PadKind::Video, direction: PadDirection::Src },
            Pad { element: vparse as usize, kind: PadKind::Video, direction: PadDirection::Sink },
            Pad { element: vparse as usize, kind: PadKind::Video, direction: PadDirection::Src },
            Pad { element: muxi as usize, kind: PadKind::Video, direction: PadDirection::Sink },
        ]
    } else {
        Seq::empty()
    }) + (if acp {
        seq![
            Pad { element: abase as usize, kind: PadKind::Audio, direction: PadDirection::Src },
        ]
    } else {
        Seq::empty()
    }) + seq![
        Pad { element: aconv as usize, kind: PadKind::Audio, direction: PadDirection::Sink },
        Pad { element: aconv as usize, kind: PadKind::Audio, direction: PadDirection::Src },
        Pad { element: ascale as usize, kind: PadKind::Audio, direction: PadDirection::Sink },
        Pad { element: ascale as usize, kind: PadKind::Audio, direction: PadDirection::Src },
        Pad { element: atail as usize, kind: PadKind::Audio, direction: PadDirection::Sink },
    ] + (if export {
        seq![
            Pad { element: atail as usize, kind: PadKind::Audio, direction: PadDirection::Src },
            Pad { element: aenc as usize, kind: PadKind::Audio, direction: PadDirection::Sink },
            Pad { element: aenc as usize, kind: PadKind::Audio, direction: PadDirection::Src },
            Pad { element: muxi as usize, kind: PadKind::Audio, direction: PadDirection::Sink },
        ]
    } else {
        Seq::empty()
    });
    let links = (if multi {
        seq![Link { from: 0, to: pv as usize }]
    } else {
        Seq::empty()
    }) + seq![
        Link { from: (pv + 1) as usize, to: (pv + 2) as usize },
        Link { from: (pv + 3) as usize, to: (pv + 4) as usize },
    ] + (if export {
        seq![
            Link { from: (pv + 5) as usize, to: (pv + 6) as usize },
            Link { from: (pv + 7) as usize, to: (pv + 8) as usize },
            Link { from: (pv + 9) as usize, to: (pv + 10) as usize },
        ]
    } else {
        Seq::empty()
    }) + (if acp {
        seq![Link { from: pvlen as usize, to: pa as usize }]
    } else {
        Seq::empty()
    }) + seq![
        Link { from: (pa + 1) as usize, to: (pa + 2) as usize },
        Link { from: (pa + 3) as usize, to: (pa + 4) as usize },
    ] + (if export {
        seq![
            Link { from: (pa + 5) as usize, to: (pa + 6) as usize },
            Link { from: (pa + 7) as usize, to: (pa + 8) as usize },
        ]
    } else {
        Seq::empty()
    });
    let vtarget: int = if multi { 0 } else { vconv };
    let atarget: Option<usize> = if vo {
        None
    } else if acp {
        Some(abase as usize)
    } else {
        Some(aconv as usize)
    };
    let entries = Seq::new(
        n,
        |i: int| PendingEntry {
            decoder: (nstatic + i) as usize,
            video_target: Some(vtarget as usize),
            audio_target: atarget,
            video_seen: false,
            audio_seen: false,
        },
    ) + (if vo {
        seq![
            PendingEntry {
                decoder: (nstatic + n) as usize,
                video_target: None,
                audio_target: Some(aconv as usize),
                video_seen: false,
                audio_seen: false,
            },
        ]
    } else {
        Seq::empty()
    });
    (elements, pads, links, entries)
}

/// Collect the video clips' paths, in order.
pub fn collect_video_paths(clips: &Vec<Clip>) -> (r: Vec<String>)
    ensures
        r@.map_values(|s: String| s@) == spec_video_paths(clips@),
{
    let mut r: Vec<String> = Vec::new();
    let mut i: usize = 0;
    while i < clips.len()
        invariant
            i <= clips@.len(),
            r@.map_values(|s: String| s@) == spec_video_paths(clips@.take(i as int)),
        decreases clips@.len() - i,
    {
        let ghost prefix = clips@.take(i as int);
        let ghost r0 = r@;
        if clips[i].media_type == MediaType::Video {
            r.push(clips[i].path.clone());
        }
        proof {
            let c1 = clips@.take(i + 1 as int);
            assert(c1.drop_last() =~= prefix);
            assert(c1.last() == clips@[i as int]);
            assert(r0.map_values(|s: String| s@).len() == r0.len());
            assert(spec_video_paths(prefix).len() == spec_video_clips(prefix).len());
            assert(r0.len() == spec_video_clips(prefix).len());
            if clips@[i as int].media_type is Video {
                assert(spec_video_clips(c1) =~= spec_video_clips(prefix) + seq![
                    clips@[i as int],
                ]);
                assert(r@ == r0.push(clips@[i as int].path));
                let mapped = r@.map_values(|s: String| s@);
                assert forall|k: int| 0 <= k < r@.len() implies mapped[k] == spec_video_paths(
                    c1,
                )[k] by {
                    assert(mapped[k] == r@[k]@);
                    assert(spec_video_paths(c1)[k] == spec_video_clips(c1)[k].path@);
                    if k < r0.len() {
                        assert(r0.map_values(|s: String| s@)[k] == spec_video_paths(prefix)[k]);
                        assert(r@[k] == r0[k]);
                        assert(spec_video_clips(c1)[k] == spec_video_clips(prefix)[k]);
                    } else {
                        assert(k == r0.len());
                        assert(r@[k] == clips@[i as int].path);
                        assert(spec_video_clips(c1)[k] == clips@[i as int]);
                    }
                }
            } else {
                assert(spec_video_clips(c1) =~= spec_video_clips(prefix));
                let mapped = r@.map_values(|s: String| s@);
                assert forall|k: int| 0 <= k < r@.len() implies mapped[k] == spec_video_paths(
                    c1,
                )[k] by {
                    assert(mapped[k] == r@[k]@);
                    assert(r0.map_values(|s: String| s@)[k] == spec_video_paths(prefix)[k]);
                }
            }
            assert(r@.map_values(|s: String| s@).len() == spec_video_paths(c1).len());
            assert(r@.map_values(|s: String| s@) =~= spec_video_paths(c1));
        }
        i += 1;
    }
    proof {
        assert(clips@.take(clips@.len() as int) =~= clips@);
    }
    r
}

/// Build the graph for the given clips, optional voiceover, and profile.
///
/// Fails with `NoClips` exactly when the clip list holds no video clip.
/// On success the graph, registry, and source list follow `spec_build` for
/// the number of video clips; the graph is well-formed and the registry
/// matches it.
#[verifier::rlimit(100)]
pub fn build_graph(clips: &Vec<Clip>, voiceover: Option<&String>, profile: &Profile) -> (r: Result<
    BuildResult,
    ConstructionError,
>)
    requires
        (profile matches Profile::Export(s) ==> s.wf()),
    ensures
        match r {
            Result::Err(e) => e == ConstructionError::NoClips && spec_video_paths(clips@).len()
                == 0,
            Result::Ok(b) => {
                let n = spec_video_paths(clips@).len();
                let model = spec_build(*profile, n, voiceover is Some);
                &&& n > 0
                &&& b.graph.wf()
                &&& registry_wf(b.resolver.entries@, b.graph)
                &&& b.graph.elements@ == model.0
                &&& b.graph.pads@ == model.1
                &&& b.graph.links@ == model.2
                &&& b.resolver.entries@ == model.3
                &&& b.sources@.map_values(|s: String| s@) == spec_video_paths(clips@) + (
                match voiceover {
                    Option::Some(v) => seq![v@],
                    Option::None => Seq::<Seq<char>>::empty(),
                })
            },
        },
{
    let mut sources = collect_video_paths(clips);
    let n = sources.len();
    if n == 0 {
        return Err(ConstructionError::NoClips);
    }
    let ghost m = spec_build(*profile, n as nat, voiceover is Some);

    let multi = n > 1;
    let vo_present = voiceover.is_some();
    let acp = multi && !vo_present;
    let export: bool;
    let vw: u32;
    let vh: u32;
    let vbr: u32;
    let abr: u32;
    match profile {
        Profile::Preview => {
            export = false;
            vw = 0;
            vh = 0;
            vbr = 0;
            abr = 0;
        },
        Profile::Export(s) => {
            export = true;
            vw = s.width;
            vh = s.height;
            vbr = s.video_bitrate;
            abr = s.audio_bitrate * 1000;
        },
    }

    // Elements, recording each chain position as it is pushed.
    let mut elements: Vec<ElementKind> = Vec::new();
    if multi {
        elements.push(ElementKind::Concat);
    }
    let vconv = elements.len();
    elements.push(ElementKind::Converter);
    let vscale = elements.len();
    elements.push(ElementKind::Scaler);
    let vtail = elements.len();
    if export {
        elements.push(ElementKind::CapsFilter { width: vw, height: vh });
        elements.push(ElementKind::Encoder { bitrate: vbr });
        elements.push(ElementKind::Parser);
    } else {
        elements.push(ElementKind::Sink);
    }
    let abase = elements.len();
    if acp {
        elements.push(ElementKind::Concat);
    }
    let aconv = elements.len();
    elements.push(ElementKind::Converter);
    let ascale = elements.len();
    elements.push(ElementKind::Scaler);
    let atail = elements.len();
    if export {
        elements.push(ElementKind::CapsFilter { width: 48000, height: 2 });
        elements.push(ElementKind::Encoder { bitrate: abr });
    } else {
        elements.push(ElementKind::Sink);
    }
    let muxi = elements.len();
    if export {
        elements.push(ElementKind::Muxer);
    }
    let nstatic = elements.len();

    // Static pads, chain by chain.
    let mut pads: Vec<Pad> = Vec::new();
    if multi {
        pads.push(Pad { element: 0, kind: PadKind::Video, direction: PadDirection::Src });
    }
    let pv = pads.len();
    pads.push(Pad { element: vconv, kind: PadKind::Video, direction: PadDirection::Sink });
    pads.push(Pad { element: vconv, kind: PadKind::Video, direction: PadDirection::Src });
    pads.push(Pad { element: vscale, kind: PadKind::Video, direction: PadDirection::Sink });
    pads.push(Pad { element: vscale, kind: PadKind::Video, direction: PadDirection::Src });
    pads.push(Pad { element: vtail, kind: PadKind::Video, direction: PadDirection::Sink });
    if export {
        pads.push(Pad { element: vtail, kind: PadKind::Video, direction: PadDirection::Src });
        pads.push(Pad { element: vtail + 1, kind: PadKind::Video, direction: PadDirection::Sink });
        pads.push(Pad { element: vtail + 1, kind: PadKind::Video, direction: PadDirection::Src });
        pads.push(Pad { element: vtail + 2, kind: PadKind::Video, direction: PadDirection::Sink });
        pads.push(Pad { element: vtail + 2, kind: PadKind::Video, direction: PadDirection::Src });
        pads.push(Pad { element: muxi, kind: PadKind::Video, direction: PadDirection::Sink });
    }
    let pvlen = pads.len();
    if acp {
        pads.push(Pad { element: abase, kind: PadKind::Audio, direction: PadDirection::Src });
    }
    let pa = pads.len();
    pads.push(Pad { element: aconv, kind: PadKind::Audio, direction: PadDirection::Sink });
    pads.push(Pad { element: aconv, kind: PadKind::Audio, direction: PadDirection::Src });
    pads.push(Pad { element: ascale, kind: PadKind::Audio, direction: PadDirection::Sink });
    pads.push(Pad { element: ascale, kind: PadKind::Audio, direction: PadDirection::Src });
    pads.push(Pad { element: atail, kind: PadKind::Audio, direction: PadDirection::Sink });
    if export {
        pads.push(Pad { element: atail, kind: PadKind::Audio, direction: PadDirection::Src });
        pads.push(Pad { element: atail + 1, kind: PadKind::Audio, direction: PadDirection::Sink });
        pads.push(Pad { element: atail + 1, kind: PadKind::Audio, direction: PadDirection::Src });
        pads.push(Pad { element: muxi, kind: PadKind::Audio, direction: PadDirection::Sink });
    }

    // Static links along each chain.
    let mut links: Vec<Link> = Vec::new();
    if multi {
        links.push(Link { from: 0, to: pv });
    }
    links.push(Link { from: pv + 1, to: pv + 2 });
    links.push(Link { from: pv + 3, to: pv + 4 });
    if export {
        links.push(Link { from: pv + 5, to: pv + 6 });
        links.push(Link { from: pv + 7, to: pv + 8 });
        links.push(Link { from: pv + 9, to: pv + 10 });
    }
    if acp {
        links.push(Link { from: pvlen, to: pa });
    }
    links.push(Link { from: pa + 1, to: pa + 2 });
    links.push(Link { from: pa + 3, to: pa + 4 });
    if export {
        links.push(Link { from: pa + 5, to: pa + 6 });
        links.push(Link { from: pa + 7, to: pa + 8 });
    }

    // Decoders and their pending-link registry entries.  The video consumer
    // the decoders feed sits at element 0 either way: the concat when there
    // are several clips, the converter when there is one.
    let vtarget: usize = 0;
    let atarget: Option<usize> = if vo_present {
        None
    } else if acp {
        Some(abase)
    } else {
        Some(aconv)
    };
    let mut entries: Vec<PendingEntry> = Vec::new();
    proof {
        assert(elements@ =~= m.0.take(nstatic as int));
        assert(entries@ =~= m.3.take(0));
    }
    let mut i: usize = 0;
    while i < n
        invariant
            i <= n,
            elements@ == m.0.take(nstatic + i),
            entries@ == m.3.take(i as int),
            nstatic + n + (if vo_present { 1int } else { 0 }) == m.0.len(),
            nstatic == spec_build_nstatic(*profile, n as nat, vo_present),
            m == spec_build(*profile, n as nat, vo_present),
            m.3.len() == n + (if vo_present { 1int } else { 0 }),
            vtarget == 0,
            atarget == spec_build_atarget(*profile, n as nat, vo_present),
        decreases n - i,
    {
        let d = elements.len();
        elements.push(ElementKind::Decoder { source: i });
        entries.push(
            PendingEntry {
                decoder: d,
                video_target: Some(vtarget),
                audio_target: atarget,
                video_seen: false,
                audio_seen: false,
            },
        );
        proof {
            assert(elements@ =~= m.0.take(nstatic + i + 1));
            assert(entries@ =~= m.3.take(i + 1 as int));
        }
        i += 1;
    }
    if let Some(v) = voiceover {
        let d = elements.len();
        elements.push(ElementKind::Decoder { source: n });
        entries.push(
            PendingEntry {
                decoder: d,
                video_target: None,
                audio_target: Some(aconv),
                video_seen: false,
                audio_seen: false,
            },
        );
        sources.push(v.clone());
    }

    let g = Graph { elements, pads, links };
    let r = Resolver { entries };

    proof {
        assert(g.elements@ =~= m.0);
        assert(g.pads@ =~= m.1);
        assert(g.links@ =~= m.2);
        assert(r.entries@ =~= m.3);
        lemma_spec_build_graph_wf(g, *profile, n as nat, vo_present);
        assert(g.elements.len() == g.elements@.len());
        assert(g.elements@.len() <= usize::MAX);
        assert(g.elements@.len() == spec_build_nstatic(*profile, n as nat, vo_present) + n + (
        if vo_present {
            1int
        } else {
            0
        }));
        lemma_spec_build_registry_wf(g, r, *profile, n as nat, vo_present);
        assert(sources@.map_values(|s: String| s@) =~= spec_video_paths(clips@) + (
        match voiceover {
            Option::Some(v) => seq![v@],
            Option::None => Seq::<Seq<char>>::empty(),
        }));
    }
    Ok(BuildResult { graph: g, resolver: r, sources })
}

/// The number of static (non-decoder) elements of a build.
pub open spec fn spec_build_nstatic(profile: Profile, n: nat, vo: bool) -> int {
    let multi = n > 1;
    let export = profile is Export;
    let acp = multi && !vo;
    (if multi { 1int } else { 0 }) + (if export { 5int } else { 3 }) + (if acp { 1int } else { 0 })
        + (if export { 5int } else { 3 })
}

/// The audio target registered for the per-clip decoders.
pub open spec fn spec_build_atarget(profile: Profile, n: nat, vo: bool) -> Option<usize> {
    let multi = n > 1;
    let export = profile is Export;
    let acp = multi && !vo;
    let vconv: int = if multi { 1 } else { 0 };
    let abase = vconv + (if export { 5int } else { 3 });
    let aconv = abase + (if acp { 1int } else { 0 });
    if vo {
        None
    } else if acp {
        Some(abase as usize)
    } else {
        Some(aconv as usize)
    }
}

/// A graph that follows `spec_build` is well-formed.
#[verifier::rlimit(100)]
proof fn lemma_spec_build_graph_wf(g: Graph, profile: Profile, n: nat, vo: bool)
    requires
        n >= 1,
        g.elements@ == spec_build(profile, n, vo).0,
        g.pads@ == spec_build(profile, n, vo).1,
        g.links@ == spec_build(profile, n, vo).2,
    ensures
        g.wf(),
{
    let multi = n > 1;
    let export = profile is Export;
    if export {
        if multi {
            if vo {
                assert(g.wf());
            } else {
                assert(g.wf());
            }
        } else {
            assert(g.wf());
        }
    } else {
        if multi {
            if vo {
                assert(g.wf());
            } else {
                assert(g.wf());
            }
        } else {
            assert(g.wf());
        }
    }
}

/// A registry that follows `spec_build` matches its graph.
#[verifier::rlimit(100)]
proof fn lemma_spec_build_registry_wf(g: Graph, r: Resolver, profile: Profile, n: nat, vo: bool)
    requires
        n >= 1,
        spec_build_nstatic(profile, n, vo) + n + (if vo {
            1int
        } else {
            0
        }) <= usize::MAX,
        g.elements@ == spec_build(profile, n, vo).0,
        r.entries@ == spec_build(profile, n, vo).3,
    ensures
        registry_wf(r.entries@, g),
{
    let m = spec_build(profile, n, vo);
    let multi = n > 1;
    let export = profile is Export;
    let acp = multi && !vo;
    let nstatic = spec_build_nstatic(profile, n, vo);
    assert(m.0.len() == nstatic + n + (if vo {
        1int
    } else {
        0
    }));
    assert(m.3.len() == n + (if vo {
        1int
    } else {
        0
    }));
    assert forall|i: int| 0 <= i < r.entries@.len() implies (#[trigger] r.entries@[i]).decoder
        < g.elements@.len() && g.elements@[r.entries@[i].decoder as int] is Decoder by {
        if i < n {
            assert(r.entries@[i].decoder == nstatic + i);
            assert(m.0[nstatic + i] == ElementKind::Decoder { source: i as usize });
        } else {
            assert(r.entries@[i].decoder == nstatic + n);
            assert(m.0[nstatic + n] == ElementKind::Decoder { source: n as usize });
        }
    }
    assert forall|i: int, j: int|
        0 <= i < r.entries@.len() && 0 <= j < r.entries@.len() && (#[trigger] r.entries@[i]).decoder
            == (#[trigger] r.entries@[j]).decoder implies i == j by {
        assert(r.entries@[i].decoder == nstatic + (if i < n {
            i
        } else {
            n as int
        }));
        assert(r.entries@[j].decoder == nstatic + (if j < n {
            j
        } else {
            n as int
        }));
    }
    assert forall|i: int|
        0 <= i < r.entries@.len() implies ((#[trigger] r.entries@[i]).video_target matches Some(t)
            ==> t < g.elements@.len() && (g.elements@[t as int] is Concat
            || g.elements@[t as int] is Converter)) by {
        if r.entries@[i].video_target is Some {
            assert(r.entries@[i].video_target == Some(0usize));
            assert(g.elements@[0] is Concat || g.elements@[0] is Converter);
        }
    }
    assert forall|i: int|
        0 <= i < r.entries@.len() implies ((#[trigger] r.entries@[i]).audio_target matches Some(t)
            ==> t < g.elements@.len() && (g.elements@[t as int] is Concat
            || g.elements@[t as int] is Converter)) by {
        let abase = (if multi {
            1int
        } else {
            0
        }) + (if export {
            5int
        } else {
            3
        });
        let aconv = abase + (if acp {
            1int
        } else {
            0
        });
        if acp {
            assert(m.0[abase] == ElementKind::Concat);
        }
        assert(m.0[aconv] == ElementKind::Converter);
    }
}

} // verus!
