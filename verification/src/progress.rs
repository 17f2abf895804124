use vstd::prelude::*;

verus! {

/// State of a window's taskbar progress indicator.
///
/// `Hidden` stands for the platform's "no indicator shown" state; every
/// state value outside `0..=3` selects it.
#[derive(Clone, Copy, Debug, PartialEq, Eq, Structural)]
pub enum ProgressKind {
    Normal,
    Indeterminate,
    Paused,
    Error,
    Hidden,
}

/// The numeric encoding of progress states used by configuration payloads:
/// `0, 1, 2, 3` select the four visible states, everything else hides the
/// indicator.
pub open spec fn spec_progress_kind(state: int) -> ProgressKind {
    if state == 0 {
        ProgressKind::Normal
    } else if state == 1 {
        ProgressKind::Indeterminate
    } else if state == 2 {
        ProgressKind::Paused
    } else if state == 3 {
        ProgressKind::Error
    } else {
        ProgressKind::Hidden
    }
}

/// Maps a caller-supplied numeric progress state to the progress indicator
/// state it selects.
pub fn progress_kind_of(state: i64) -> (r: ProgressKind)
    ensures
        r == spec_progress_kind(state as int),
{
    if state == 0 {
        ProgressKind::Normal
    } else if state == 1 {
        ProgressKind::Indeterminate
    } else if state == 2 {
        ProgressKind::Paused
    } else if state == 3 {
        ProgressKind::Error
    } else {
        ProgressKind::Hidden
    }
}

} // verus!
