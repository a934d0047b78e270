pub mod control_bindings;
pub mod journal;

pub use control_bindings::{ControlBinding, ControlBindings, Input};

use vstd::prelude::*;

verus! {

/// The legal state of the commander as reported in the status snapshot. Any
/// state other than speeding is of no interest and reported as `Other`.
#[derive(Clone, Copy, Debug, PartialEq, Eq, Structural)]
pub enum LegalState {
    Speeding,
    Other,
}

impl Default for LegalState {
    fn default() -> (state: LegalState)
        ensures
            state == LegalState::Other,
    {
        LegalState::Other
    }
}

/// A snapshot of the game status: the raw flag word and the legal state.
#[derive(Clone, Copy, Debug, PartialEq, Eq, Structural)]
pub struct Status {
    pub flags: u32,
    pub legal_state: LegalState,
}

impl Default for Status {
    fn default() -> (status: Status)
        ensures
            status.flags == 0,
            status.legal_state == LegalState::Other,
    {
        Status { flags: 0, legal_state: LegalState::Other }
    }
}

impl Status {
    /// True if the payload read from the status file holds a snapshot. The
    /// game momentarily writes an empty file on exit: that is no snapshot.
    pub open spec fn payload_holds_snapshot(payload: Seq<char>) -> bool {
        payload.len() != 0
    }

    /// Returns true if the payload read from the status file holds a snapshot
    /// that is worth parsing, false if the payload is empty.
    pub fn is_present(payload: &str) -> (present: bool)
        ensures
            present == Self::payload_holds_snapshot(payload@),
    {
        !payload.is_empty()
    }
}

/// True if `position` is that of the latest among the files whose times of
/// modification are given: no file was modified later, and of those modified
/// at the same time it is the last.
pub open spec fn is_latest(modified: Seq<u128>, position: int) -> bool {
    &&& 0 <= position < modified.len()
    &&& forall|i: int| 0 <= i < modified.len() ==> modified[i] <= modified[position]
    &&& forall|i: int| position < i < modified.len() ==> modified[i] < modified[position]
}

/// Returns the position of the latest journal file among those found, given
/// the time at which each was modified, all measured alike. Returns nothing
/// if no file was found. Of files modified at the same time the last counts
/// as the latest.
pub fn latest_journal_file_position(modified: &Vec<u128>) -> (latest: Option<usize>)
    ensures
        modified@.len() == 0 <==> latest is None,
        latest matches Some(position) ==> is_latest(modified@, position as int),
{
    if modified.len() == 0 {
        return None;
    }
    let mut latest: usize = 0;
    let mut position: usize = 1;
    while position < modified.len()
        invariant
            1 <= position <= modified@.len(),
            is_latest(modified@.take(position as int), latest as int),
        decreases modified@.len() - position,
    {
        if modified[position] >= modified[latest] {
            latest = position;
        }
        position += 1;
        assert(is_latest(modified@.take(position as int), latest as int)) by {
            assert forall|i: int| 0 <= i < position implies modified@.take(position as int)[i]
                <= modified@.take(position as int)[latest as int] by {
                if i < position - 1 {
                    assert(modified@.take(position - 1)[i] == modified@[i]);
                }
            }
            assert forall|i: int| latest < i < position implies modified@.take(position as int)[i]
                < modified@.take(position as int)[latest as int] by {
                if i < position - 1 {
                    assert(modified@.take(position - 1)[i] == modified@[i]);
                }
            }
        }
    }
    assert(modified@.take(position as int) =~= modified@);
    Some(latest)
}

} // verus!
