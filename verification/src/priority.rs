//! Real-time scheduling hint: what to ask of the scheduler for the session's
//! thread, and what to make of its answers. Nothing here is ever fatal.

use vstd::prelude::*;

verus! {

/// The nice value asked for the thread that decodes audio.
pub const AUDIO_THREAD_PRIORITY: i32 = -16;

/// The value by which the calls that set and read a priority report failure.
/// Read back, it may also be a priority.
pub const PRIORITY_CALL_FAILED: i32 = -1;

/// A line for the diagnostics after the priority was set and read back.
#[derive(Clone, Copy, Debug, PartialEq, Eq, Structural)]
pub enum SchedulingNote {
    /// The priority could not be raised.
    ElevationFailed,
    /// Reading the priority back gave the value that also reports failure.
    ReadbackUnclear,
    /// The priority that the thread now has.
    Priority(i32),
}

/// The notes on an attempt: one if raising the priority failed, then one on
/// what was read back.
pub open spec fn spec_scheduling_notes(set_result: i32, get_result: i32) -> Seq<SchedulingNote> {
    let elevation = if set_result == PRIORITY_CALL_FAILED {
        seq![SchedulingNote::ElevationFailed]
    } else {
        Seq::<SchedulingNote>::empty()
    };
    let readback = if get_result == PRIORITY_CALL_FAILED {
        SchedulingNote::ReadbackUnclear
    } else {
        SchedulingNote::Priority(get_result)
    };
    elevation.push(readback)
}

/// The text of a note. For a priority it is the text that the number follows.
pub open spec fn spec_note_text(note: SchedulingNote) -> &'static str {
    match note {
        SchedulingNote::ElevationFailed => "Setting thread priority failed.",
        SchedulingNote::ReadbackUnclear => {
            "libc::getpriority returned -1 which might be error or not."
        },
        SchedulingNote::Priority(_) => "Thread priority: ",
    }
}

/// Whether a note reports something that went wrong.
pub open spec fn spec_is_warning(note: SchedulingNote) -> bool {
    !(note is Priority)
}

impl SchedulingNote {
    /// The text of the note. For a priority it is the text that the number
    /// follows.
    pub fn text(&self) -> (text: &'static str)
        ensures
            text == spec_note_text(*self),
    {
        match self {
            SchedulingNote::ElevationFailed => "Setting thread priority failed.",
            SchedulingNote::ReadbackUnclear => {
                "libc::getpriority returned -1 which might be error or not."
            },
            SchedulingNote::Priority(_) => "Thread priority: ",
        }
    }

    /// Whether the note reports something that went wrong.
    pub fn is_warning(&self) -> (warning: bool)
        ensures
            warning == spec_is_warning(*self),
    {
        match self {
            SchedulingNote::Priority(_) => false,
            _ => true,
        }
    }
}

/// Makes the notes on an attempt to raise the thread's priority, from what
/// the call that set it and the call that read it back returned.
pub fn scheduling_notes(set_result: i32, get_result: i32) -> (notes: Vec<SchedulingNote>)
    ensures
        notes@ == spec_scheduling_notes(set_result, get_result),
{
    let mut notes: Vec<SchedulingNote> = Vec::new();
    if set_result == PRIORITY_CALL_FAILED {
        notes.push(SchedulingNote::ElevationFailed);
    }
    if get_result == PRIORITY_CALL_FAILED {
        notes.push(SchedulingNote::ReadbackUnclear);
    } else {
        notes.push(SchedulingNote::Priority(get_result));
    }
    notes
}

/// Every attempt leaves one or two notes, the last of them on the readback;
/// none of them stops the session.
pub proof fn lemma_notes_end_with_readback(set_result: i32, get_result: i32)
    ensures
        1 <= spec_scheduling_notes(set_result, get_result).len() <= 2,
        !(spec_scheduling_notes(set_result, get_result).last() is ElevationFailed),
        spec_scheduling_notes(set_result, get_result).len() == 2 <==> set_result
            == PRIORITY_CALL_FAILED,
{
}

} // verus!
