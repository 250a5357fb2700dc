//! Execution driver: the state machine that owns one graph run.
//!
//! The driver holds the cached metadata of a prerolled graph and decides, as a
//! pure state machine, what the engine worker has to do next.  Everything the
//! underlying engine reports (preroll queries, bus messages, position reads)
//! is handed in as a plain value; every effect the driver wants (release the
//! pipeline, issue a seek) is handed back as a plain value.  The worker loop
//! that blocks on the engine's bus performs those effects and feeds the next
//! event back in.

use vstd::prelude::*;
use vstd::string::StringExecFns;

verus! {

/// One million: the denominator of normalized positions.
pub const PPM: u64 = 1_000_000;

/// The state of one graph run.  Exactly one of these holds at any time.
#[derive(Clone, Debug, PartialEq, Eq)]
pub enum ExecutionState {
    Idle,
    Prerolled,
    Playing,
    Paused,
    Stopped,
    Failed(String),
}

impl ExecutionState {
    /// Whether commands that need a live, prerolled graph are accepted.
    pub open spec fn is_ready(self) -> bool {
        self is Prerolled || self is Playing || self is Paused
    }
}

/// Why a command was rejected.
#[derive(Clone, Copy, Debug, PartialEq, Eq, Structural)]
pub enum CommandError {
    /// The graph is not prerolled (or already stopped or failed), so the
    /// command has no effect.
    NotReady,
}

/// A low-level event read from the engine's bus.
#[derive(Clone, Debug)]
pub enum BusMessage {
    /// End of stream: the run finished.
    Eos,
    /// A fatal pipeline error with its text and optional diagnostic detail.
    Error { message: String, detail: Option<String> },
    /// A non-fatal warning; logged, the loop continues.
    Warning { message: String },
    /// A state change of the top-level graph; logged only.
    StateChanged,
    /// Anything else; ignored.
    Other,
}

/// What the worker loop has to do after one bus message.
#[derive(Clone, Copy, Debug, PartialEq, Eq, Structural)]
pub enum LoopAction {
    /// Keep consuming messages.
    Continue,
    /// The run finished; release the pipeline and leave the loop.
    Finish,
    /// The run failed; release the pipeline and leave the loop.
    Fail,
}

/// The driver of one graph run.
#[derive(Clone, Debug)]
pub struct Driver {
    /// The run's current state.
    pub state: ExecutionState,
    /// Whether an engine pipeline is held (and must eventually be released).
    pub loaded: bool,
    /// Duration in nanoseconds, cached once after preroll; zero if the query
    /// failed (callers must tolerate a placeholder).
    pub duration_ns: u64,
    /// Last observed position in nanoseconds.
    pub position_ns: u64,
    /// Video width in pixels, cached once after preroll.
    pub width: u32,
    /// Video height in pixels, cached once after preroll.
    pub height: u32,
    /// Whether a seek was issued since the last position observation; the
    /// next observed position may then move backwards.
    pub seek_pending: bool,
}

/// The driver after its pipeline was torn down: stopped, nothing held, the
/// cached metadata kept.
pub open spec fn spec_stopped(d: Driver) -> Driver {
    Driver { state: ExecutionState::Stopped, loaded: false, seek_pending: false, ..d }
}

/// The failure reason surfaced for an error message with optional detail:
/// the text, then the detail in parentheses (empty when there is none).
pub open spec fn spec_error_reason(message: Seq<char>, detail: Option<Seq<char>>) -> Seq<char> {
    message + " ("@ + (match detail {
        Option::Some(d) => d,
        Option::None => Seq::<char>::empty(),
    }) + ")"@
}

impl Driver {
    /// A fresh driver: idle, nothing loaded, placeholder dimensions.
    pub fn new() -> (d: Driver)
        ensures
            d.state is Idle,
            !d.loaded,
            d.duration_ns == 0,
            d.position_ns == 0,
            d.width == 1280,
            d.height == 720,
            !d.seek_pending,
    {
        Driver {
            state: ExecutionState::Idle,
            loaded: false,
            duration_ns: 0,
            position_ns: 0,
            width: 1280,
            height: 720,
            seek_pending: false,
        }
    }

    /// Record the end of preroll: the engine's duration and dimension query
    /// results are cached for the graph's lifetime.  A failed query leaves
    /// the zero/placeholder values; with both queries answered, a positive
    /// duration and the probed dimensions are reported from here on.
    pub fn preroll(&mut self, duration_ns: Option<u64>, dimensions: Option<(u32, u32)>)
        requires
            old(self).state is Idle,
        ensures
            final(self).state is Prerolled,
            final(self).loaded,
            final(self).duration_ns == (match duration_ns {
                Option::Some(d) => d,
                Option::None => 0u64,
            }),
            (match dimensions {
                Option::Some(wh) => final(self).width == wh.0 && final(self).height == wh.1,
                Option::None => final(self).width == old(self).width && final(self).height == old(
                    self,
                ).height,
            }),
            final(self).position_ns == old(self).position_ns,
            !final(self).seek_pending,
    {
        self.state = ExecutionState::Prerolled;
        self.loaded = true;
        if let Some(d) = duration_ns {
            self.duration_ns = d;
        } else {
            self.duration_ns = 0;
        }
        if let Some((w, h)) = dimensions {
            self.width = w;
            self.height = h;
        }
        self.seek_pending = false;
    }

    /// Start or resume playback.  Idempotent: on a graph already playing it
    /// changes nothing; on one that is not ready it is a no-op.
    pub fn play(&mut self)
        ensures
            old(self).state.is_ready() ==> final(self).state is Playing,
            !old(self).state.is_ready() ==> final(self).state == old(self).state,
            *final(self) == (Driver { state: final(self).state, ..*old(self) }),
    {
        match self.state {
            ExecutionState::Prerolled | ExecutionState::Playing | ExecutionState::Paused => {
                self.state = ExecutionState::Playing;
            },
            _ => {},
        }
    }

    /// Pause playback.  Idempotent, and a no-op on a graph that is not ready.
    pub fn pause(&mut self)
        ensures
            old(self).state.is_ready() ==> final(self).state is Paused,
            !old(self).state.is_ready() ==> final(self).state == old(self).state,
            *final(self) == (Driver { state: final(self).state, ..*old(self) }),
    {
        match self.state {
            ExecutionState::Prerolled | ExecutionState::Playing | ExecutionState::Paused => {
                self.state = ExecutionState::Paused;
            },
            _ => {},
        }
    }

    /// Stop the run and release the pipeline.  Returns whether a pipeline
    /// was actually held: a second stop finds none, releases nothing, and
    /// changes nothing — stopping is idempotent.
    pub fn stop(&mut self) -> (released: bool)
        ensures
            *final(self) == spec_stopped(*old(self)),
            released == old(self).loaded,
    {
        let released = self.loaded;
        self.loaded = false;
        self.state = ExecutionState::Stopped;
        self.seek_pending = false;
        released
    }

    /// The nanosecond target for a seek to a normalized position (in
    /// millionths), clamped into `[0, PPM]` and scaled by the cached
    /// duration.  Fails with `NotReady` before preroll and after the run
    /// stopped or failed, leaving everything unchanged; on success the next
    /// position observation is allowed to move backwards.
    pub fn seek(&mut self, position_ppm: i64) -> (r: Result<u64, CommandError>)
        ensures
            old(self).state.is_ready() && old(self).loaded ==> r == Result::<u64, CommandError>::Ok(
                spec_seek_target(position_ppm, old(self).duration_ns),
            ) && *final(self) == (Driver { seek_pending: true, ..*old(self) }),
            !(old(self).state.is_ready() && old(self).loaded) ==> r == Result::<
                u64,
                CommandError,
            >::Err(CommandError::NotReady) && *final(self) == *old(self),
    {
        let ready = match self.state {
            ExecutionState::Prerolled | ExecutionState::Playing | ExecutionState::Paused => true,
            _ => false,
        };
        if ready && self.loaded {
            self.seek_pending = true;
            Ok(seek_target_ns(position_ppm, self.duration_ns))
        } else {
            Err(CommandError::NotReady)
        }
    }

    /// Record a position the engine reported.  While no seek intervenes the
    /// stored position never decreases (stale reads are dropped); the first
    /// observation after a seek is taken as is.
    pub fn observe_position(&mut self, reported_ns: u64)
        ensures
            final(self).position_ns == (if old(self).seek_pending {
                reported_ns
            } else if reported_ns > old(self).position_ns {
                reported_ns
            } else {
                old(self).position_ns
            }),
            !final(self).seek_pending,
            *final(self) == (Driver {
                position_ns: final(self).position_ns,
                seek_pending: false,
                ..*old(self)
            }),
            !old(self).seek_pending ==> final(self).position_ns >= old(self).position_ns,
    {
        if self.seek_pending {
            self.position_ns = reported_ns;
            self.seek_pending = false;
        } else if reported_ns > self.position_ns {
            self.position_ns = reported_ns;
        }
    }

    /// The progress pair handed to a callback: position and duration, known
    /// only once a duration is cached; never reported before that.
    pub fn progress(&self) -> (r: Option<(u64, u64)>)
        ensures
            self.duration_ns > 0 ==> r == Some((self.position_ns, self.duration_ns)),
            self.duration_ns == 0 ==> r is None,
    {
        if self.duration_ns > 0 {
            Some((self.position_ns, self.duration_ns))
        } else {
            None
        }
    }

    /// The progress fraction in millionths, clamped into `[0, PPM]`; `None`
    /// until a duration is known.
    pub fn progress_ppm(&self) -> (r: Option<u64>)
        ensures
            self.duration_ns == 0 ==> r is None,
            self.duration_ns > 0 ==> (r matches Some(f) && f == spec_progress_ppm(
                self.position_ns,
                self.duration_ns,
            ) && f <= PPM),
    {
        if self.duration_ns == 0 {
            return None;
        }
        let pos = if self.position_ns > self.duration_ns {
            self.duration_ns
        } else {
            self.position_ns
        };
        let wide: u128 = (pos as u128) * (PPM as u128) / (self.duration_ns as u128);
        proof {
            let d = self.duration_ns as int;
            assert(pos * PPM <= d * PPM) by (nonlinear_arith)
                requires
                    pos <= d,
                    PPM > 0,
            ;
            assert(pos * PPM / d <= d * PPM / d) by (nonlinear_arith)
                requires
                    pos * PPM <= d * PPM,
                    d > 0,
            ;
            assert(d * PPM / d == PPM) by (nonlinear_arith)
                requires
                    d > 0,
            ;
        }
        Some(wide as u64)
    }

    /// Turn one bus message into the next state and the worker's action.
    ///
    /// End of stream stops the run (success, terminal).  An error moves the
    /// run to `Failed` with the surfaced reason and tears the pipeline down.
    /// Warnings and state changes are logged by the worker and change
    /// nothing.
    pub fn handle_message(&mut self, msg: &BusMessage) -> (act: LoopAction)
        ensures
            match msg {
                BusMessage::Eos => act == LoopAction::Finish && *final(self) == spec_stopped(
                    *old(self),
                ),
                BusMessage::Error { message, detail } => {
                    &&& act == LoopAction::Fail
                    &&& final(self).state matches ExecutionState::Failed(reason)
                        && reason@ == spec_error_reason(
                        message@,
                        match detail {
                            Option::Some(d) => Option::Some(d@),
                            Option::None => Option::None,
                        },
                    )
                    &&& !final(self).loaded
                    &&& !final(self).seek_pending
                    &&& final(self).duration_ns == old(self).duration_ns
                    &&& final(self).position_ns == old(self).position_ns
                    &&& final(self).width == old(self).width
                    &&& final(self).height == old(self).height
                },
                _ => act == LoopAction::Continue && *final(self) == *old(self),
            },
    {
        match msg {
            BusMessage::Eos => {
                self.stop();
                LoopAction::Finish
            },
            BusMessage::Error { message, detail } => {
                let mut reason = message.clone();
                reason.append(" (");
                if let Some(d) = detail {
                    reason.append(d.as_str());
                }
                reason.append(")");
                proof {
                    assert(reason@ == spec_error_reason(
                        message@,
                        match detail {
                            Option::Some(d) => Option::Some(d@),
                            Option::None => Option::None,
                        },
                    ));
                }
                self.state = ExecutionState::Failed(reason);
                self.loaded = false;
                self.seek_pending = false;
                LoopAction::Fail
            },
            _ => LoopAction::Continue,
        }
    }
}

/// The progress fraction in millionths: position clamped to the duration,
/// scaled by `PPM`, divided by the duration.
pub open spec fn spec_progress_ppm(position_ns: u64, duration_ns: u64) -> u64 {
    let pos = if position_ns > duration_ns {
        duration_ns as int
    } else {
        position_ns as int
    };
    (pos * PPM / (duration_ns as int)) as u64
}

/// The normalized seek input clamped into `[0, PPM]`.
pub open spec fn spec_clamp_ppm(pos: i64) -> u64 {
    if pos < 0 {
        0
    } else if pos > PPM as i64 {
        PPM
    } else {
        pos as u64
    }
}

/// The nanosecond target of a seek: `clamped position * duration / PPM`.
pub open spec fn spec_seek_target(pos: i64, duration_ns: u64) -> u64 {
    (spec_clamp_ppm(pos) * duration_ns / (PPM as int)) as u64
}

/// Clamp a normalized position (in millionths) into `[0, PPM]`.
pub fn clamp_ppm(pos: i64) -> (r: u64)
    ensures
        r == spec_clamp_ppm(pos),
        r <= PPM,
{
    if pos < 0 {
        0
    } else if pos > PPM as i64 {
        PPM
    } else {
        pos as u64
    }
}

/// Convert a normalized position into the nanosecond seek target.
pub fn seek_target_ns(pos: i64, duration_ns: u64) -> (r: u64)
    ensures
        r == spec_seek_target(pos, duration_ns),
        r <= duration_ns,
{
    let clamped: u64 = clamp_ppm(pos);
    proof {
        assert((clamped as int) * (duration_ns as int) <= (PPM as int) * (duration_ns as int))
            by (nonlinear_arith)
            requires
                clamped <= PPM,
        ;
    }
    let wide: u128 = (clamped as u128) * (duration_ns as u128) / (PPM as u128);
    proof {
        assert(spec_clamp_ppm(pos) * duration_ns <= PPM * duration_ns) by (nonlinear_arith)
            requires
                spec_clamp_ppm(pos) <= PPM,
        ;
        assert(PPM * duration_ns / (PPM as int) == duration_ns) by (nonlinear_arith);
        assert(spec_clamp_ppm(pos) * duration_ns / (PPM as int) <= PPM * duration_ns / (
        PPM as int)) by (nonlinear_arith)
            requires
                spec_clamp_ppm(pos) * duration_ns <= PPM * duration_ns,
        ;
    }
    wide as u64
}

/// Seeking clamps: every input below `0` seeks like `0`, every input above
/// one (in millionths) seeks like one.
pub proof fn lemma_seek_clamp_idempotent(pos: i64, duration_ns: u64)
    ensures
        pos < 0 ==> spec_seek_target(pos, duration_ns) == spec_seek_target(0, duration_ns),
        pos > PPM as i64 ==> spec_seek_target(pos, duration_ns) == spec_seek_target(
            PPM as i64,
            duration_ns,
        ),
{
}

/// Stopping is idempotent: tearing down an already-stopped driver changes
/// nothing, and since nothing is held any more, nothing is released twice.
pub proof fn lemma_stop_idempotent(d: Driver)
    ensures
        spec_stopped(spec_stopped(d)) == spec_stopped(d),
        !spec_stopped(d).loaded,
{
}

} // verus!
