//! Export: settings, the choice between the external transcoder and the
//! internal graph engine, the exact command line and concat manifest the
//! external tool is given, and the duration accounting of the result.
//!
//! The external tool is preferred for any multi-clip export; its
//! availability is probed once by the embedding and handed in as a plain
//! value.  Without it, a single clip still goes through the full internal
//! engine, while a multi-clip export is degraded to the first clip only,
//! with a warning.

use vstd::prelude::*;
use vstd::string::StringExecFns;
use crate::builder::ConstructionError;
use crate::builder::spec_video_paths;
use crate::project::Clip;
use crate::project::decimal_string;
use crate::project::spec_decimal;

verus! {

/// Settings for exporting a project to a single muxed output file.
#[derive(Clone, Debug)]
pub struct ExportSettings {
    /// Output file path.
    pub output_path: String,
    /// Target video width in pixels.
    pub width: u32,
    /// Target video height in pixels.
    pub height: u32,
    /// Video bitrate in kbit/s.
    pub video_bitrate: u32,
    /// Audio bitrate in kbit/s.
    pub audio_bitrate: u32,
}

impl ExportSettings {
    /// The ranges every consumer of the settings relies on: positive target
    /// dimensions and an audio bitrate whose bit/s form fits in 32 bits.
    pub open spec fn wf(self) -> bool {
        &&& 0 < self.width
        &&& 0 < self.height
        &&& self.audio_bitrate * 1000 <= u32::MAX
    }
}

impl Default for ExportSettings {
    /// 1080p at 5000 kbit/s video and 192 kbit/s audio, written to
    /// `output.mp4`.
    fn default() -> (r: Self)
        ensures
            r.output_path@ == "output.mp4"@,
            r.width == 1920,
            r.height == 1080,
            r.video_bitrate == 5000,
            r.audio_bitrate == 192,
            r.wf(),
    {
        ExportSettings {
            output_path: "output.mp4".to_owned(),
            width: 1920,
            height: 1080,
            video_bitrate: 5000,
            audio_bitrate: 192,
        }
    }
}

/// A failure of the external transcoder.
#[derive(Clone, Debug, PartialEq, Eq)]
pub enum ToolError {
    /// The tool is not installed.  Never surfaced to callers: it silently
    /// selects the internal fallback.
    ToolNotFound,
    /// The tool ran and exited non-zero; the last non-empty line of its
    /// standard error is the surfaced detail.
    ToolExecutionFailed { exit_code: i32, stderr_tail: Vec<u8> },
}

/// How one export is carried out.
#[derive(Clone, Debug)]
pub enum ExportStrategy {
    /// Run the external tool: write `manifest` to the manifest path, then
    /// invoke the tool with `args`.
    External { manifest: String, args: Vec<String> },
    /// Drive the single clip through the full internal graph engine.
    InternalSingle,
    /// Internal fallback for several clips: only the first clip is
    /// exported.
    InternalFirstOnly,
}

/// A decided export: the strategy and whether the caller must log a
/// degradation warning.
#[derive(Clone, Debug)]
pub struct ExportPlan {
    pub strategy: ExportStrategy,
    /// True exactly when several clips fall back to the internal engine,
    /// which exports only the first clip.
    pub degraded: bool,
}

/// One line of the concat manifest: `file '<path>'` and a newline.
pub open spec fn spec_manifest_line(path: Seq<char>) -> Seq<char> {
    "file '"@ + path + "'\n"@
}

/// The concat manifest: one line per clip path, in order.
pub open spec fn spec_manifest(paths: Seq<Seq<char>>) -> Seq<char>
    decreases paths.len(),
{
    if paths.len() == 0 {
        Seq::empty()
    } else {
        spec_manifest(paths.drop_last()) + spec_manifest_line(paths.last())
    }
}

/// Write the concat manifest for the given clip paths.
pub fn concat_manifest(paths: &Vec<String>) -> (r: String)
    ensures
        r@ == spec_manifest(paths@.map_values(|s: String| s@)),
{
    let mut r = String::new();
    let mut i: usize = 0;
    while i < paths.len()
        invariant
            i <= paths@.len(),
            r@ == spec_manifest(paths@.map_values(|s: String| s@).take(i as int)),
        decreases paths@.len() - i,
    {
        let ghost views = paths@.map_values(|s: String| s@);
        r.append("file '");
        r.append(paths[i].as_str());
        r.append("'\n");
        proof {
            assert(views.take(i + 1 as int).drop_last() =~= views.take(i as int));
            assert(views.take(i + 1 as int).last() == paths@[i as int]@);
            assert(r@ =~= spec_manifest(views.take(i as int)) + spec_manifest_line(
                paths@[i as int]@,
            ));
        }
        i += 1;
    }
    proof {
        let views = paths@.map_values(|s: String| s@);
        assert(views.take(views.len() as int) =~= views);
    }
    r
}

/// The scale-and-pad filter: scale into the target preserving the source
/// aspect ratio, then pad the remainder, centred.
pub open spec fn spec_scale_pad_filter(width: u32, height: u32) -> Seq<char> {
    "scale="@ + spec_decimal(width as int) + ":"@ + spec_decimal(height as int)
        + ":force_original_aspect_ratio=decrease,pad="@ + spec_decimal(width as int) + ":"@
        + spec_decimal(height as int) + ":(ow-iw)/2:(oh-ih)/2"@
}

/// A bitrate argument in the tool's `<kbit/s>k` form.
pub open spec fn spec_bitrate_arg(kbps: u32) -> Seq<char> {
    spec_decimal(kbps as int) + "k"@
}

/// The external tool's whole argument list for one export: concat-demux
/// input, optional second input for the voiceover, explicit stream mapping
/// (video from the first input; audio from the voiceover if present, else
/// from the first input, if it has any), the scale-and-pad filter, both
/// bitrates, shortest-stream-wins when a voiceover is mapped, and the
/// output path.
pub open spec fn spec_tool_args(
    settings: ExportSettings,
    manifest_path: Seq<char>,
    voiceover: Option<Seq<char>>,
) -> Seq<Seq<char>> {
    seq!["-y"@, "-f"@, "concat"@, "-safe"@, "0"@, "-i"@, manifest_path] + (match voiceover {
        Option::Some(v) => seq!["-i"@, v],
        Option::None => Seq::<Seq<char>>::empty(),
    }) + seq!["-map"@, "0:v:0"@] + (match voiceover {
        Option::Some(_) => seq!["-map"@, "1:a:0"@],
        Option::None => seq!["-map"@, "0:a:0?"@],
    }) + seq!["-vf"@, spec_scale_pad_filter(settings.width, settings.height)] + seq![
        "-b:v"@,
        spec_bitrate_arg(settings.video_bitrate),
        "-b:a"@,
        spec_bitrate_arg(settings.audio_bitrate),
    ] + (match voiceover {
        Option::Some(_) => seq!["-shortest"@],
        Option::None => Seq::<Seq<char>>::empty(),
    }) + seq![settings.output_path@]
}

/// Build the scale-and-pad filter string.
fn scale_pad_filter(width: u32, height: u32) -> (r: String)
    ensures
        r@ == spec_scale_pad_filter(width, height),
{
    let wd = decimal_string(width as u64);
    let hd = decimal_string(height as u64);
    let mut r = String::new();
    r.append("scale=");
    r.append(wd.as_str());
    r.append(":");
    r.append(hd.as_str());
    r.append(":force_original_aspect_ratio=decrease,pad=");
    r.append(wd.as_str());
    r.append(":");
    r.append(hd.as_str());
    r.append(":(ow-iw)/2:(oh-ih)/2");
    proof {
        assert(r@ =~= spec_scale_pad_filter(width, height));
    }
    r
}

/// Build a bitrate argument.
fn bitrate_arg(kbps: u32) -> (r: String)
    ensures
        r@ == spec_bitrate_arg(kbps),
{
    let mut r = decimal_string(kbps as u64);
    r.append("k");
    proof {
        assert(r@ =~= spec_bitrate_arg(kbps));
    }
    r
}

/// Build the external tool's argument list.
pub fn tool_args(
    settings: &ExportSettings,
    manifest_path: &String,
    voiceover: Option<&String>,
) -> (r: Vec<String>)
    ensures
        r@.map_values(|s: String| s@) == spec_tool_args(
            *settings,
            manifest_path@,
            match voiceover {
                Option::Some(v) => Option::Some(v@),
                Option::None => Option::None,
            },
        ),
{
    let mut r: Vec<String> = Vec::new();
    r.push("-y".to_owned());
    r.push("-f".to_owned());
    r.push("concat".to_owned());
    r.push("-safe".to_owned());
    r.push("0".to_owned());
    r.push("-i".to_owned());
    r.push(manifest_path.clone());
    if let Some(v) = voiceover {
        r.push("-i".to_owned());
        r.push(v.clone());
    }
    r.push("-map".to_owned());
    r.push("0:v:0".to_owned());
    r.push("-map".to_owned());
    if voiceover.is_some() {
        r.push("1:a:0".to_owned());
    } else {
        r.push("0:a:0?".to_owned());
    }
    r.push("-vf".to_owned());
    r.push(scale_pad_filter(settings.width, settings.height));
    r.push("-b:v".to_owned());
    r.push(bitrate_arg(settings.video_bitrate));
    r.push("-b:a".to_owned());
    r.push(bitrate_arg(settings.audio_bitrate));
    if voiceover.is_some() {
        r.push("-shortest".to_owned());
    }
    r.push(settings.output_path.clone());
    proof {
        assert(r@.map_values(|s: String| s@) =~= spec_tool_args(
            *settings,
            manifest_path@,
            match voiceover {
                Option::Some(v) => Option::Some(v@),
                Option::None => Option::None,
            },
        ));
    }
    r
}

/// Decide how to export: the external tool for several clips when it is
/// available; the full internal engine for a single clip; the degraded
/// first-clip-only internal fallback for several clips without the tool.
/// Fails with `NoClips` exactly when no clip carries video.
pub fn plan_export(
    clips: &Vec<Clip>,
    voiceover: Option<&String>,
    settings: &ExportSettings,
    tool_available: bool,
    manifest_path: &String,
) -> (r: Result<ExportPlan, ConstructionError>)
    ensures
        match r {
            Result::Err(e) => e == ConstructionError::NoClips && spec_video_paths(clips@).len()
                == 0,
            Result::Ok(p) => {
                let paths = spec_video_paths(clips@);
                &&& paths.len() > 0
                &&& (paths.len() == 1 ==> p.strategy is InternalSingle && !p.degraded)
                &&& (paths.len() > 1 && tool_available ==> (p.strategy matches
                    ExportStrategy::External { manifest, args } && manifest@ == spec_manifest(paths)
                    && args@.map_values(|s: String| s@) == spec_tool_args(
                    *settings,
                    manifest_path@,
                    match voiceover {
                        Option::Some(v) => Option::Some(v@),
                        Option::None => Option::None,
                    },
                ) && !p.degraded))
                &&& (paths.len() > 1 && !tool_available ==> p.strategy is InternalFirstOnly
                    && p.degraded)
            },
        },
{
    let paths = crate::builder::collect_video_paths(clips);
    if paths.len() == 0 {
        return Err(ConstructionError::NoClips);
    }
    if paths.len() == 1 {
        return Ok(ExportPlan { strategy: ExportStrategy::InternalSingle, degraded: false });
    }
    if tool_available {
        let manifest = concat_manifest(&paths);
        let args = tool_args(settings, manifest_path, voiceover);
        Ok(ExportPlan { strategy: ExportStrategy::External { manifest, args }, degraded: false })
    } else {
        Ok(ExportPlan { strategy: ExportStrategy::InternalFirstOnly, degraded: true })
    }
}

/// The sum of clip durations, in nanoseconds (unbounded).
pub open spec fn spec_sum_ns(durations: Seq<u64>) -> int
    decreases durations.len(),
{
    if durations.len() == 0 {
        0
    } else {
        spec_sum_ns(durations.drop_last()) + durations.last()
    }
}

/// A prefix never sums to more than the whole sequence.
proof fn lemma_sum_prefix(durations: Seq<u64>, j: int)
    requires
        0 <= j <= durations.len(),
    ensures
        spec_sum_ns(durations.take(j)) <= spec_sum_ns(durations),
    decreases durations.len() - j,
{
    if j == durations.len() {
        assert(durations.take(j) =~= durations);
    } else {
        lemma_sum_prefix(durations, j + 1);
        assert(durations.take(j + 1).drop_last() =~= durations.take(j));
        assert(durations.take(j + 1).last() == durations[j]);
    }
}

/// The duration of the concatenation: the sum of the clips' durations, or
/// `None` when it does not fit in 64 bits.
pub fn concat_duration_ns(durations: &Vec<u64>) -> (r: Option<u64>)
    ensures
        spec_sum_ns(durations@) <= u64::MAX ==> r == Some(spec_sum_ns(durations@) as u64),
        spec_sum_ns(durations@) > u64::MAX ==> r is None,
{
    let mut acc: u64 = 0;
    let mut i: usize = 0;
    while i < durations.len()
        invariant
            i <= durations@.len(),
            acc == spec_sum_ns(durations@.take(i as int)),
        decreases durations@.len() - i,
    {
        proof {
            assert(durations@.take(i + 1 as int).drop_last() =~= durations@.take(i as int));
            assert(durations@.take(i + 1 as int).last() == durations@[i as int]);
        }
        match acc.checked_add(durations[i]) {
            Some(next) => {
                acc = next;
            },
            None => {
                proof {
                    lemma_sum_prefix(durations@, i + 1);
                }
                return None;
            },
        }
        i += 1;
    }
    proof {
        assert(durations@.take(durations@.len() as int) =~= durations@);
    }
    Some(acc)
}

/// The shortest-stream-wins duration policy: the voiceover bounds the
/// output; without one the video duration stands.
pub open spec fn spec_shortest_wins(video_ns: u64, voiceover_ns: Option<u64>) -> u64 {
    match voiceover_ns {
        Option::Some(v) => if v < video_ns {
            v
        } else {
            video_ns
        },
        Option::None => video_ns,
    }
}

/// Apply the shortest-stream-wins policy.
pub fn shortest_wins_ns(video_ns: u64, voiceover_ns: Option<u64>) -> (r: u64)
    ensures
        r == spec_shortest_wins(video_ns, voiceover_ns),
{
    match voiceover_ns {
        Some(v) => if v < video_ns {
            v
        } else {
            video_ns
        },
        None => video_ns,
    }
}

/// Without a voiceover the export's duration is exactly the sum of the
/// clips' durations.
pub proof fn lemma_duration_without_voiceover(sum_ns: u64)
    ensures
        spec_shortest_wins(sum_ns, None) == sum_ns,
{
}

/// With a voiceover the shorter stream wins: the export's duration is the
/// minimum of the concatenated video duration and the voiceover duration;
/// in particular a shorter voiceover bounds the output.
pub proof fn lemma_voiceover_shortest_wins(sum_ns: u64, voiceover_ns: u64)
    ensures
        spec_shortest_wins(sum_ns, Some(voiceover_ns)) == (if voiceover_ns < sum_ns {
            voiceover_ns
        } else {
            sum_ns
        }),
        voiceover_ns <= sum_ns ==> spec_shortest_wins(sum_ns, Some(voiceover_ns)) == voiceover_ns,
        spec_shortest_wins(sum_ns, Some(voiceover_ns)) <= sum_ns,
        spec_shortest_wins(sum_ns, Some(voiceover_ns)) <= voiceover_ns,
{
}

/// The duration the planned export is expected to produce, given each
/// clip's probed duration: the external tool concatenates everything and
/// applies shortest-wins against the voiceover; the internal single-clip
/// path reproduces its clip (the internal engine does not mix a voiceover
/// in); the degraded fallback reproduces only the first clip.
pub fn expected_export_duration_ns(
    plan: &ExportPlan,
    clip_durations: &Vec<u64>,
    voiceover_ns: Option<u64>,
) -> (r: Option<u64>)
    requires
        clip_durations@.len() > 0,
    ensures
        match plan.strategy {
            ExportStrategy::External { .. } => {
                &&& spec_sum_ns(clip_durations@) <= u64::MAX ==> r == Some(
                    spec_shortest_wins(spec_sum_ns(clip_durations@) as u64, voiceover_ns),
                )
                &&& spec_sum_ns(clip_durations@) > u64::MAX ==> r is None
            },
            ExportStrategy::InternalSingle => r == Some(clip_durations@[0]),
            ExportStrategy::InternalFirstOnly => r == Some(clip_durations@[0]),
        },
{
    match &plan.strategy {
        ExportStrategy::External { .. } => {
            match concat_duration_ns(clip_durations) {
                Some(sum) => Some(shortest_wins_ns(sum, voiceover_ns)),
                None => None,
            }
        },
        ExportStrategy::InternalSingle => Some(clip_durations[0]),
        ExportStrategy::InternalFirstOnly => Some(clip_durations[0]),
    }
}

/// The scaled size and padding of a letterboxed frame.
#[derive(Clone, Copy, Debug, PartialEq, Eq, Structural)]
pub struct Letterbox {
    /// Scaled width, at most the target width.
    pub scaled_width: u32,
    /// Scaled height, at most the target height.
    pub scaled_height: u32,
    /// Padding left of the scaled frame.
    pub pad_left: u32,
    /// Padding above the scaled frame.
    pub pad_top: u32,
}

/// Letterbox geometry: scale to fit the target while preserving the source
/// aspect ratio, pad the remainder, centred.  A source at least as wide as
/// the target's aspect fills the width; otherwise it fills the height.
pub open spec fn spec_letterbox(src_w: u32, src_h: u32, dst_w: u32, dst_h: u32) -> Letterbox {
    if src_w * dst_h >= src_h * dst_w {
        let h = src_h * dst_w / (src_w as int);
        Letterbox {
            scaled_width: dst_w,
            scaled_height: h as u32,
            pad_left: 0,
            pad_top: ((dst_h - h) / 2) as u32,
        }
    } else {
        let w = src_w * dst_h / (src_h as int);
        Letterbox {
            scaled_width: w as u32,
            scaled_height: dst_h,
            pad_left: ((dst_w - w) / 2) as u32,
            pad_top: 0,
        }
    }
}

/// Compute the letterbox geometry for scaling a source into a target.
pub fn letterbox_geometry(src_w: u32, src_h: u32, dst_w: u32, dst_h: u32) -> (r: Letterbox)
    requires
        src_w > 0,
        src_h > 0,
    ensures
        r == spec_letterbox(src_w, src_h, dst_w, dst_h),
        r.scaled_width <= dst_w,
        r.scaled_height <= dst_h,
        r.scaled_width == dst_w || r.scaled_height == dst_h,
        r.pad_left == (dst_w - r.scaled_width) / 2,
        r.pad_top == (dst_h - r.scaled_height) / 2,
{
    proof {
        assert((src_w as int) * (dst_h as int) <= 0xffffffff * 0xffffffff) by (nonlinear_arith)
            requires
                src_w <= 0xffffffffu64,
                dst_h <= 0xffffffffu64,
        ;
        assert((src_h as int) * (dst_w as int) <= 0xffffffff * 0xffffffff) by (nonlinear_arith)
            requires
                src_h <= 0xffffffffu64,
                dst_w <= 0xffffffffu64,
        ;
    }
    let wide_side = (src_w as u64) * (dst_h as u64);
    let tall_side = (src_h as u64) * (dst_w as u64);
    if wide_side >= tall_side {
        let h64 = (src_h as u64) * (dst_w as u64) / (src_w as u64);
        proof {
            assert(src_h * dst_w / (src_w as int) <= dst_h) by (nonlinear_arith)
                requires
                    src_w > 0,
                    src_h * dst_w <= src_w * dst_h,
            ;
        }
        let h = h64 as u32;
        Letterbox {
            scaled_width: dst_w,
            scaled_height: h,
            pad_left: 0,
            pad_top: (dst_h - h) / 2,
        }
    } else {
        let w64 = (src_w as u64) * (dst_h as u64) / (src_h as u64);
        proof {
            assert(src_w * dst_h / (src_h as int) <= dst_w) by (nonlinear_arith)
                requires
                    src_h > 0,
                    src_w * dst_h <= src_h * dst_w,
            ;
        }
        let w = w64 as u32;
        Letterbox {
            scaled_width: w,
            scaled_height: dst_h,
            pad_left: (dst_w - w) / 2,
            pad_top: 0,
        }
    }
}

/// The bytes of the current (unterminated) last line of a byte stream.
pub open spec fn spec_line_suffix(bytes: Seq<u8>) -> Seq<u8>
    decreases bytes.len(),
{
    if bytes.len() == 0 || bytes.last() == 10 {
        Seq::empty()
    } else {
        spec_line_suffix(bytes.drop_last()).push(bytes.last())
    }
}

/// The last non-empty line of a byte stream: trailing newlines are skipped,
/// then the line running up to the previous newline is taken.
pub open spec fn spec_last_nonempty_line(bytes: Seq<u8>) -> Seq<u8>
    decreases bytes.len(),
{
    if bytes.len() == 0 {
        Seq::empty()
    } else if bytes.last() == 10 {
        spec_last_nonempty_line(bytes.drop_last())
    } else {
        spec_line_suffix(bytes)
    }
}

/// When no newline occurs at or after `k`, and `k` sits just after a
/// newline (or at the start), the current line is exactly the suffix from
/// `k`.
proof fn lemma_line_suffix_subrange(bytes: Seq<u8>, k: int)
    requires
        0 <= k <= bytes.len(),
        forall|i: int| k <= i < bytes.len() ==> bytes[i] != 10,
        k > 0 ==> bytes[k - 1] == 10,
    ensures
        spec_line_suffix(bytes) == bytes.subrange(k, bytes.len() as int),
    decreases bytes.len() - k,
{
    if bytes.len() == k {
        if k == 0 {
            assert(spec_line_suffix(bytes) =~= bytes.subrange(k, bytes.len() as int));
        } else {
            assert(bytes.last() == 10);
            assert(spec_line_suffix(bytes) =~= bytes.subrange(k, bytes.len() as int));
        }
    } else {
        assert(bytes.last() != 10);
        lemma_line_suffix_subrange(bytes.drop_last(), k);
        assert(spec_line_suffix(bytes) =~= bytes.subrange(k, bytes.len() as int));
    }
}

/// Extract the last non-empty line of the tool's standard error.
pub fn stderr_tail(stderr: &Vec<u8>) -> (r: Vec<u8>)
    ensures
        r@ == spec_last_nonempty_line(stderr@),
{
    let mut end: usize = stderr.len();
    proof {
        assert(stderr@.take(stderr@.len() as int) =~= stderr@);
    }
    while end > 0 && stderr[end - 1] == 10
        invariant
            end <= stderr@.len(),
            spec_last_nonempty_line(stderr@) == spec_last_nonempty_line(
                stderr@.take(end as int),
            ),
        decreases end,
    {
        proof {
            assert(stderr@.take(end as int).drop_last() =~= stderr@.take(end - 1 as int));
        }
        end -= 1;
    }
    if end == 0 {
        let r: Vec<u8> = Vec::new();
        proof {
            assert(stderr@.take(0) =~= Seq::<u8>::empty());
        }
        return r;
    }
    let mut start: usize = end;
    while start > 0 && stderr[start - 1] != 10
        invariant
            start <= end,
            end <= stderr@.len(),
            forall|i: int| start <= i < end ==> stderr@[i] != 10,
        decreases start,
    {
        start -= 1;
    }
    let mut r: Vec<u8> = Vec::new();
    let mut i: usize = start;
    while i < end
        invariant
            start <= i <= end,
            end <= stderr@.len(),
            r@ == stderr@.subrange(start as int, i as int),
        decreases end - i,
    {
        r.push(stderr[i]);
        proof {
            assert(r@ =~= stderr@.subrange(start as int, i + 1 as int));
        }
        i += 1;
    }
    proof {
        let clipped = stderr@.take(end as int);
        assert(clipped.last() != 10);
        assert forall|j: int| start <= j < clipped.len() implies clipped[j] != 10 by {
            assert(clipped[j] == stderr@[j]);
        }
        lemma_line_suffix_subrange(clipped, start as int);
        assert(spec_last_nonempty_line(clipped) == spec_line_suffix(clipped));
        assert(clipped.subrange(start as int, clipped.len() as int) =~= stderr@.subrange(
            start as int,
            end as int,
        ));
    }
    r
}

/// Interpret the external tool's exit: zero is success; anything else is a
/// hard failure carrying the exit code and the last non-empty line of
/// standard error.
pub fn interpret_tool_exit(exit_code: i32, stderr: &Vec<u8>) -> (r: Result<(), ToolError>)
    ensures
        (exit_code == 0) <==> (r is Ok),
        (r matches Err(e) ==> e matches ToolError::ToolExecutionFailed {
            exit_code: c,
            stderr_tail: t,
        } && c == exit_code && t@ == spec_last_nonempty_line(stderr@)),
{
    if exit_code == 0 {
        Ok(())
    } else {
        let tail = stderr_tail(stderr);
        Err(ToolError::ToolExecutionFailed { exit_code, stderr_tail: tail })
    }
}

} // verus!
