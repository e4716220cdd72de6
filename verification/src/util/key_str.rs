//! The place in the caller's source that a call came from.

use super::text::{contains, spec_contains};
use backtrace::Backtrace;
use vstd::prelude::*;

verus! {

/// `backtrace::Backtrace`: a captured stack. What is known of it is what
/// `backtrace_frames` names.
#[verifier::external_type_specification]
#[verifier::external_body]
pub struct ExBacktrace(Backtrace);

/// What a symbol of a stack frame tells of its place in the source.
#[derive(Clone, Debug, PartialEq, Eq)]
pub struct FrameSymbol {
    /// The source file, where it is known and its path is valid UTF-8.
    pub file_name: Option<String>,
    /// The line in the source file, where it is known.
    pub line: Option<u32>,
}

/// A symbol as plain values: its file name and its line, each where it is
/// known.
pub open spec fn symbol_view(symbol: FrameSymbol) -> (Option<Seq<char>>, Option<u32>) {
    (
        match symbol.file_name {
            Some(file) => Some(file@),
            None => None,
        },
        symbol.line,
    )
}

/// The symbols of a frame as plain values.
pub open spec fn frame_view(frame: Vec<FrameSymbol>) -> Seq<(Option<Seq<char>>, Option<u32>)> {
    frame@.map_values(|symbol: FrameSymbol| symbol_view(symbol))
}

/// Frames as plain values.
pub open spec fn frames_view(frames: Seq<Vec<FrameSymbol>>) -> Seq<
    Seq<(Option<Seq<char>>, Option<u32>)>,
> {
    frames.map_values(|frame: Vec<FrameSymbol>| frame_view(frame))
}

/// The frames that a backtrace holds, from the top of the stack down, each
/// with its symbols as `symbol_view` gives them.
pub uninterp spec fn backtrace_frames(b: Backtrace) -> Seq<
    Seq<(Option<Seq<char>>, Option<u32>)>,
>;

/// `backtrace::Backtrace::frames`, with `BacktraceFrame::symbols`,
/// `BacktraceSymbol::filename` and `BacktraceSymbol::lineno`: the frames
/// from the top of the stack down, each with what its symbols tell. A file
/// name that is no valid UTF-8 counts as not known.
#[verifier::external_body]
fn frame_symbols(b: &Backtrace) -> (frames: Vec<Vec<FrameSymbol>>)
    ensures
        frames_view(frames@) == backtrace_frames(*b),
{
    let symbol = |s: &backtrace::BacktraceSymbol| FrameSymbol {
        file_name: s.filename().and_then(|p| p.to_str()).map(|s| s.to_string()),
        line: s.lineno(),
    };
    b.frames().iter().map(|frame| frame.symbols().iter().map(symbol).collect()).collect()
}

/// Whether a source file belongs to the backtrace machinery or to the
/// orchestrator itself, and so is not the caller's.
pub open spec fn is_internal_file(file_name: Seq<char>) -> bool {
    spec_contains(file_name, "/backtrace-"@) || spec_contains(
        file_name,
        "cosm-orc/src/orchestrator"@,
    )
}

/// The file and line of the first frame that is the caller's, judged by
/// the first symbol of each frame. The frames are gone through from the top
/// of the stack. A frame of an internal file is passed over. The search
/// ends without a result at a frame without a symbol or without a file
/// name, and at a frame of the caller's whose line is not known.
pub open spec fn external_frame(frames: Seq<Seq<(Option<Seq<char>>, Option<u32>)>>) -> Option<
    (Seq<char>, u64),
>
    decreases frames.len(),
{
    if frames.len() == 0 || frames[0].len() == 0 {
        None
    } else {
        match frames[0][0] {
            (Some(file), line) => {
                if is_internal_file(file) {
                    external_frame(frames.skip(1))
                } else {
                    match line {
                        Some(l) => Some((file, l as u64)),
                        None => None,
                    }
                }
            },
            _ => None,
        }
    }
}

/// Finds the first frame that is the caller's, and returns its file name
/// and line.
pub fn first_external_frame(frames: &Vec<Vec<FrameSymbol>>) -> (r: Option<(String, u64)>)
    ensures
        match r {
            Some((file, line)) => external_frame(frames_view(frames@)) == Some((file@, line)),
            None => external_frame(frames_view(frames@)) is None,
        },
{
    let ghost views = frames_view(frames@);
    let mut i: usize = 0;
    assert(views.skip(0) =~= views);
    while i < frames.len()
        invariant
            0 <= i <= frames@.len(),
            views == frames_view(frames@),
            external_frame(views.skip(i as int)) == external_frame(views),
        decreases frames@.len() - i,
    {
        proof {
            assert(views.skip(i as int)[0] == frame_view(frames@[i as int]));
            assert(views.skip(i as int).skip(1) =~= views.skip(i + 1));
        }
        if frames[i].len() == 0 {
            return None;
        }
        let symbol = &frames[i][0];
        assert(frame_view(frames@[i as int])[0] == symbol_view(*symbol));
        match &symbol.file_name {
            Some(file) => {
                if !contains(file.as_str(), "/backtrace-") && !contains(
                    file.as_str(),
                    "cosm-orc/src/orchestrator",
                ) {
                    return match symbol.line {
                        Some(line) => Some((file.clone(), line as u64)),
                        None => None,
                    };
                }
            },
            None => {
                return None;
            },
        }
        i += 1;
    }
    None
}

/// Finds the first frame of the backtrace that is the caller's, and returns
/// its file name and line.
pub fn process_backtrace(b: &Backtrace) -> (r: Option<(String, u64)>)
    ensures
        match r {
            Some((file, line)) => external_frame(backtrace_frames(*b)) == Some((file@, line)),
            None => external_frame(backtrace_frames(*b)) is None,
        },
{
    let frames = frame_symbols(b);
    first_external_frame(&frames)
}

} // verus!
