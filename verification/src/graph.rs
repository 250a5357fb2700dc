//! The element graph: typed processing nodes, their pads, and the links
//! between them, together with the well-formedness the builder establishes
//! and every later operation preserves.

use vstd::prelude::*;

verus! {

/// A typed processing node.  The properties each kind needs are carried as
/// fields; on audio chains the caps filter's two fields carry the sample
/// rate and the channel count instead of pixel dimensions.
#[derive(Clone, Copy, Debug, PartialEq, Eq, Structural)]
pub enum ElementKind {
    /// Decodes one file of the run's source list; `source` is its position
    /// there.
    Decoder { source: usize },
    /// Converts raw frames or samples between formats.
    Converter,
    /// Scales video; stands for resampling on audio chains.
    Scaler,
    /// Fixes the format downstream of the scaler.
    CapsFilter { width: u32, height: u32 },
    /// Encodes at the given bitrate (kbit/s video, bit/s audio).
    Encoder { bitrate: u32 },
    /// Parses an encoded bitstream before muxing.
    Parser,
    /// Merges one video and at most one audio stream into a container.
    Muxer,
    /// Duplicates a stream.
    Tee,
    /// Merges same-kind streams, in link order, into one continuous stream.
    Concat,
    /// Hands the stream to the application (preview) or plays it out.
    Sink,
}

/// The media kind a pad carries.  Dynamic pads are `Unresolved` until the
/// element has probed the underlying stream.
#[derive(Clone, Copy, Debug, PartialEq, Eq, Structural)]
pub enum PadKind {
    Video,
    Audio,
    Unresolved,
}

/// Which way data flows through a pad.
#[derive(Clone, Copy, Debug, PartialEq, Eq, Structural)]
pub enum PadDirection {
    /// Data leaves the element here.
    Src,
    /// Data enters the element here.
    Sink,
}

/// A typed connection point on an element.
#[derive(Clone, Copy, Debug, PartialEq, Eq, Structural)]
pub struct Pad {
    /// Index of the owning element in `Graph::elements`.
    pub element: usize,
    /// The media kind the pad carries.
    pub kind: PadKind,
    /// Which way data flows.
    pub direction: PadDirection,
}

/// A directed edge from a src pad to a sink pad, both indices into
/// `Graph::pads`.
#[derive(Clone, Copy, Debug, PartialEq, Eq, Structural)]
pub struct Link {
    pub from: usize,
    pub to: usize,
}

/// The element/pad/link structure assembled for one playback or export run.
#[derive(Clone, Debug)]
pub struct Graph {
    pub elements: Vec<ElementKind>,
    pub pads: Vec<Pad>,
    pub links: Vec<Link>,
}

impl Graph {
    /// Whether a link is valid in this graph: its endpoints exist, data flows
    /// src to sink, and both pads share a resolved kind.
    pub open spec fn link_valid(self, l: Link) -> bool {
        &&& l.from < self.pads@.len()
        &&& l.to < self.pads@.len()
        &&& self.pads@[l.from as int].direction is Src
        &&& self.pads@[l.to as int].direction is Sink
        &&& self.pads@[l.from as int].kind == self.pads@[l.to as int].kind
        &&& !(self.pads@[l.from as int].kind is Unresolved)
    }

    /// Whether pad index `p` is a sink pad of a muxer carrying `k`.
    pub open spec fn is_muxer_input(self, p: int, k: PadKind) -> bool {
        &&& 0 <= p < self.pads@.len()
        &&& self.pads@[p].element < self.elements@.len()
        &&& self.elements@[self.pads@[p].element as int] is Muxer
        &&& self.pads@[p].kind == k
        &&& self.pads@[p].direction is Sink
    }

    /// Well-formedness: pads belong to elements, links are valid, every pad
    /// is linked at most once, and the muxer has at most one video input and
    /// at most one audio input.
    pub open spec fn wf(self) -> bool {
        &&& forall|i: int|
            0 <= i < self.pads@.len() ==> (#[trigger] self.pads@[i]).element < self.elements@.len()
        &&& forall|i: int|
            0 <= i < self.links@.len() ==> self.link_valid(#[trigger] self.links@[i])
        &&& forall|i: int, j: int|
            0 <= i < self.links@.len() && 0 <= j < self.links@.len() && (#[trigger] self.links@[i]).to
                == (#[trigger] self.links@[j]).to ==> i == j
        &&& forall|i: int, j: int|
            0 <= i < self.links@.len() && 0 <= j < self.links@.len() && (
            #[trigger] self.links@[i]).from == (#[trigger] self.links@[j]).from ==> i == j
        &&& forall|i: int, j: int|
            0 <= i < self.links@.len() && 0 <= j < self.links@.len() && self.is_muxer_input(
                (#[trigger] self.links@[i]).to as int,
                PadKind::Video,
            ) && self.is_muxer_input((#[trigger] self.links@[j]).to as int, PadKind::Video) ==> i
                == j
        &&& forall|i: int, j: int|
            0 <= i < self.links@.len() && 0 <= j < self.links@.len() && self.is_muxer_input(
                (#[trigger] self.links@[i]).to as int,
                PadKind::Audio,
            ) && self.is_muxer_input((#[trigger] self.links@[j]).to as int, PadKind::Audio) ==> i
                == j
    }

    /// An empty graph: no elements, no pads, no links.  Well-formed.
    pub fn new() -> (g: Graph)
        ensures
            g.elements@ == Seq::<ElementKind>::empty(),
            g.pads@ == Seq::<Pad>::empty(),
            g.links@ == Seq::<Link>::empty(),
            g.wf(),
    {
        Graph { elements: Vec::new(), pads: Vec::new(), links: Vec::new() }
    }
}

} // verus!
