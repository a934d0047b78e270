use crate::game::file::Status;
use std::path::PathBuf;
use vstd::prelude::*;

verus! {

/// `std::path::PathBuf`, which is carried through and never looked into.
#[verifier::external_type_specification]
#[verifier::external_body]
pub struct ExPathBuf(PathBuf);

/// What the event loop is told of: each is handled to completion before the
/// next is looked at.
#[derive(Debug, PartialEq)]
pub enum Event {
    NewJournalFile(PathBuf),
    AnimationTick,
    StatusUpdate(Status),
    Exit,
}

} // verus!
