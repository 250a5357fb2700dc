//! Dynamic pad resolver: a pending-link registry keyed by decode element.
//!
//! Decoder output pads appear only once the element has probed the stream.
//! The builder registers, per decoder, one downstream target per media kind
//! the graph expects from that source; whenever the engine reports a new pad
//! the single resolver function decides synchronously what happens to it.

use vstd::prelude::*;
use crate::graph::ElementKind;
use crate::graph::Graph;
use crate::graph::Link;
use crate::graph::Pad;
use crate::graph::PadDirection;
use crate::graph::PadKind;

verus! {

/// The pending downstream targets of one decode element: one slot per media
/// kind the graph expects from that source, and whether a pad of that kind
/// has already appeared.
#[derive(Clone, Copy, Debug, PartialEq, Eq)]
pub struct PendingEntry {
    /// Element index of the decoder this entry belongs to.
    pub decoder: usize,
    /// Element that wants the decoder's video stream, if any.
    pub video_target: Option<usize>,
    /// Element that wants the decoder's audio stream, if any.
    pub audio_target: Option<usize>,
    /// Whether a video pad of this decoder has already been resolved.
    pub video_seen: bool,
    /// Whether an audio pad of this decoder has already been resolved.
    pub audio_seen: bool,
}

/// The pending-link registry of one graph.
#[derive(Clone, Debug)]
pub struct Resolver {
    pub entries: Vec<PendingEntry>,
}

/// What the resolver did with a newly exposed pad.
#[derive(Clone, Copy, Debug, PartialEq, Eq, Structural)]
pub enum LinkOutcome {
    /// The pad was linked to a fresh input port of the given target element.
    Linked { target: usize },
    /// The engine refused the link; the pad stays unconnected and the graph
    /// continues in a degraded state.
    LinkFailed { target: usize },
    /// A pad of an already-resolved kind; only the first is linked.
    DroppedDuplicate,
    /// A pad of a kind the graph does not expect from this source, or an
    /// unresolved kind; left alone.
    Ignored,
}

/// What a registry must satisfy against its graph: every entry names a
/// decoder element, entries are keyed uniquely, and every target is a concat
/// or converter element of the graph (in particular, never the muxer).
pub open spec fn registry_wf(entries: Seq<PendingEntry>, g: Graph) -> bool {
    &&& forall|i: int|
        0 <= i < entries.len() ==> (#[trigger] entries[i]).decoder < g.elements@.len()
            && g.elements@[entries[i].decoder as int] is Decoder
    &&& forall|i: int, j: int|
        0 <= i < entries.len() && 0 <= j < entries.len() && (#[trigger] entries[i]).decoder == (
        #[trigger] entries[j]).decoder ==> i == j
    &&& forall|i: int|
        0 <= i < entries.len() ==> ((#[trigger] entries[i]).video_target matches Some(t) ==> t
            < g.elements@.len() && (g.elements@[t as int] is Concat
            || g.elements@[t as int] is Converter))
    &&& forall|i: int|
        0 <= i < entries.len() ==> ((#[trigger] entries[i]).audio_target matches Some(t) ==> t
            < g.elements@.len() && (g.elements@[t as int] is Concat
            || g.elements@[t as int] is Converter))
}

impl Resolver {
    /// The registry position of the entry for `decoder`, if one exists.
    pub open spec fn spec_find(self, decoder: usize) -> Option<int> {
        if exists|i: int| 0 <= i < self.entries@.len() && self.entries@[i].decoder == decoder {
            Some(choose|i: int| 0 <= i < self.entries@.len() && self.entries@[i].decoder == decoder)
        } else {
            None
        }
    }

    fn find(&self, decoder: usize) -> (r: Option<usize>)
        ensures
            match r {
                Some(i) => i < self.entries@.len() && self.entries@[i as int].decoder == decoder,
                None => forall|i: int|
                    0 <= i < self.entries@.len() ==> (#[trigger] self.entries@[i]).decoder
                        != decoder,
            },
    {
        let mut i: usize = 0;
        while i < self.entries.len()
            invariant
                i <= self.entries@.len(),
                forall|j: int| 0 <= j < i ==> (#[trigger] self.entries@[j]).decoder != decoder,
            decreases self.entries@.len() - i,
        {
            if self.entries[i].decoder == decoder {
                return Some(i);
            }
            i += 1;
        }
        None
    }
}

/// Resolve one newly exposed pad of `decoder`, whose probed kind is `kind`.
///
/// The first pad of an expected kind is linked to a fresh input port of the
/// registered target (`engine_accepts` reports whether the engine accepted
/// the link request; on refusal the pad is left unconnected).  A second pad
/// of an already-resolved kind is dropped; pads of unexpected or unresolved
/// kinds are ignored and change nothing.
pub fn resolve_pad(
    g: &mut Graph,
    r: &mut Resolver,
    decoder: usize,
    kind: PadKind,
    engine_accepts: bool,
) -> (outcome: LinkOutcome)
    requires
        old(g).wf(),
        registry_wf(old(r).entries@, *old(g)),
    ensures
        final(g).wf(),
        registry_wf(final(r).entries@, *final(g)),
        final(g).elements@ == old(g).elements@,
        // Only a successful link changes the graph: one fresh src pad on the
        // decoder, one fresh sink pad on the target, and one link between
        // them, all of the probed kind.
        match outcome {
            LinkOutcome::Linked { target } => {
                &&& final(g).pads@ == old(g).pads@ + seq![
                    Pad { element: decoder, kind, direction: PadDirection::Src },
                    Pad { element: target, kind, direction: PadDirection::Sink },
                ]
                &&& final(g).links@ == old(g).links@ + seq![
                    Link { from: old(g).pads@.len() as usize, to: (old(g).pads@.len() + 1) as usize },
                ]
                &&& !(final(g).elements@[target as int] is Muxer)
            },
            _ => final(g).pads@ == old(g).pads@ && final(g).links@ == old(g).links@,
        },
        // The registry changes only in the seen flag of this decoder's entry.
        match (old(r).spec_find(decoder)) {
            Some(i) => {
                &&& final(r).entries@.len() == old(r).entries@.len()
                &&& forall|j: int|
                    0 <= j < old(r).entries@.len() && j != i ==> final(r).entries@[j] == old(
                        r,
                    ).entries@[j]
                &&& final(r).entries@[i].decoder == old(r).entries@[i].decoder
                &&& final(r).entries@[i].video_target == old(r).entries@[i].video_target
                &&& final(r).entries@[i].audio_target == old(r).entries@[i].audio_target
                // Outcome case analysis for the entry that was found.
                &&& (kind is Video ==> {
                    let e = old(r).entries@[i];
                    &&& final(r).entries@[i].audio_seen == e.audio_seen
                    &&& (e.video_seen ==> outcome == LinkOutcome::DroppedDuplicate
                        && final(r).entries@[i] == e)
                    &&& (!e.video_seen ==> final(r).entries@[i].video_seen && (match e.video_target {
                        Some(t) => outcome == (if engine_accepts {
                            LinkOutcome::Linked { target: t }
                        } else {
                            LinkOutcome::LinkFailed { target: t }
                        }),
                        None => outcome == LinkOutcome::Ignored,
                    }))
                })
                &&& (kind is Audio ==> {
                    let e = old(r).entries@[i];
                    &&& final(r).entries@[i].video_seen == e.video_seen
                    &&& (e.audio_seen ==> outcome == LinkOutcome::DroppedDuplicate
                        && final(r).entries@[i] == e)
                    &&& (!e.audio_seen ==> final(r).entries@[i].audio_seen && (match e.audio_target {
                        Some(t) => outcome == (if engine_accepts {
                            LinkOutcome::Linked { target: t }
                        } else {
                            LinkOutcome::LinkFailed { target: t }
                        }),
                        None => outcome == LinkOutcome::Ignored,
                    }))
                })
                &&& (kind is Unresolved ==> outcome == LinkOutcome::Ignored && final(r).entries@
                    == old(r).entries@)
            },
            None => outcome == LinkOutcome::Ignored && final(r).entries@ == old(r).entries@,
        },
{
    let found = r.find(decoder);
    let i = match found {
        Some(i) => i,
        None => {
            proof {
                if old(r).spec_find(decoder) is Some {
                    let w = choose|w: int|
                        0 <= w < r.entries@.len() && r.entries@[w].decoder == decoder;
                    assert(r.entries@[w].decoder == decoder);
                }
            }
            return LinkOutcome::Ignored;
        },
    };
    proof {
        assert(0 <= i < r.entries@.len() && r.entries@[i as int].decoder == decoder);
        assert(old(r).spec_find(decoder) is Some);
        let w = choose|w: int| 0 <= w < r.entries@.len() && r.entries@[w].decoder == decoder;
        assert(w == i as int);  // decoder keys are unique
    }
    let entry = r.entries[i];
    match kind {
        PadKind::Unresolved => LinkOutcome::Ignored,
        PadKind::Video => {
            if entry.video_seen {
                LinkOutcome::DroppedDuplicate
            } else {
                let mut updated = entry;
                updated.video_seen = true;
                r.entries.set(i, updated);
                match entry.video_target {
                    None => LinkOutcome::Ignored,
                    Some(t) => {
                        if engine_accepts {
                            attach_link(g, decoder, t, PadKind::Video);
                            LinkOutcome::Linked { target: t }
                        } else {
                            LinkOutcome::LinkFailed { target: t }
                        }
                    },
                }
            }
        },
        PadKind::Audio => {
            if entry.audio_seen {
                LinkOutcome::DroppedDuplicate
            } else {
                let mut updated = entry;
                updated.audio_seen = true;
                r.entries.set(i, updated);
                match entry.audio_target {
                    None => LinkOutcome::Ignored,
                    Some(t) => {
                        if engine_accepts {
                            attach_link(g, decoder, t, PadKind::Audio);
                            LinkOutcome::Linked { target: t }
                        } else {
                            LinkOutcome::LinkFailed { target: t }
                        }
                    },
                }
            }
        },
    }
}

/// Add a fresh src pad on `decoder`, request a fresh sink pad on `target`,
/// and link the two.  Preserves well-formedness because both pads are fresh
/// and the target is not the muxer.
fn attach_link(g: &mut Graph, decoder: usize, target: usize, kind: PadKind)
    requires
        old(g).wf(),
        decoder < old(g).elements@.len(),
        target < old(g).elements@.len(),
        !(old(g).elements@[target as int] is Muxer),
        !(kind is Unresolved),
    ensures
        final(g).wf(),
        final(g).elements@ == old(g).elements@,
        final(g).pads@ == old(g).pads@ + seq![
            Pad { element: decoder, kind, direction: PadDirection::Src },
            Pad { element: target, kind, direction: PadDirection::Sink },
        ],
        final(g).links@ == old(g).links@ + seq![
            Link { from: old(g).pads@.len() as usize, to: (old(g).pads@.len() + 1) as usize },
        ],
{
    let from = g.pads.len();
    g.pads.push(Pad { element: decoder, kind, direction: PadDirection::Src });
    let to = g.pads.len();
    g.pads.push(Pad { element: target, kind, direction: PadDirection::Sink });
    g.links.push(Link { from, to });
    proof {
        let gn = *g;
        let go = *old(g);
        assert forall|i: int| 0 <= i < gn.links@.len() implies gn.link_valid(
            #[trigger] gn.links@[i],
        ) by {
            if i < go.links@.len() {
                assert(go.link_valid(go.links@[i]));
            }
        }
        assert forall|i: int, j: int|
            0 <= i < gn.links@.len() && 0 <= j < gn.links@.len() && (#[trigger] gn.links@[i]).to
                == (#[trigger] gn.links@[j]).to implies i == j by {
            if i < go.links@.len() && j < go.links@.len() {
                assert(go.links@[i].to == go.links@[j].to);
            } else if i < go.links@.len() {
                assert(go.link_valid(go.links@[i]));
            } else if j < go.links@.len() {
                assert(go.link_valid(go.links@[j]));
            }
        }
        assert forall|i: int, j: int|
            0 <= i < gn.links@.len() && 0 <= j < gn.links@.len() && (#[trigger] gn.links@[i]).from
                == (#[trigger] gn.links@[j]).from implies i == j by {
            if i < go.links@.len() && j < go.links@.len() {
                assert(go.links@[i].from == go.links@[j].from);
            } else if i < go.links@.len() {
                assert(go.link_valid(go.links@[i]));
            } else if j < go.links@.len() {
                assert(go.link_valid(go.links@[j]));
            }
        }
        assert forall|i: int, j: int|
            0 <= i < gn.links@.len() && 0 <= j < gn.links@.len() && gn.is_muxer_input(
                (#[trigger] gn.links@[i]).to as int,
                PadKind::Video,
            ) && gn.is_muxer_input((#[trigger] gn.links@[j]).to as int, PadKind::Video) implies i
            == j by {
            if i < go.links@.len() && j < go.links@.len() {
                assert(go.is_muxer_input(go.links@[i].to as int, PadKind::Video));
                assert(go.is_muxer_input(go.links@[j].to as int, PadKind::Video));
            }
        }
        assert forall|i: int, j: int|
            0 <= i < gn.links@.len() && 0 <= j < gn.links@.len() && gn.is_muxer_input(
                (#[trigger] gn.links@[i]).to as int,
                PadKind::Audio,
            ) && gn.is_muxer_input((#[trigger] gn.links@[j]).to as int, PadKind::Audio) implies i
            == j by {
            if i < go.links@.len() && j < go.links@.len() {
                assert(go.is_muxer_input(go.links@[i].to as int, PadKind::Audio));
                assert(go.is_muxer_input(go.links@[j].to as int, PadKind::Audio));
            }
        }
    }
}

} // verus!
