//! The state that one watch session keeps between events: the last version
//! seen, and whether the server has said that this version is too old.

use crate::version::{merge_versions, merged, zero, zero_version};
use vstd::prelude::*;

verus! {

/// The cursor of a watch session.
#[derive(Debug)]
pub struct CursorState {
    version: String,
    needs_resync: bool,
}

/// What a `CursorState` holds.
pub struct CursorView {
    /// The version at which the next watch starts.
    pub version: Seq<char>,
    /// Whether the next poll has to start over from the zero version.
    pub needs_resync: bool,
}

impl CursorView {
    /// The cursor of a session that has seen nothing yet.
    pub open spec fn start() -> CursorView {
        CursorView { version: zero_version(), needs_resync: false }
    }

    /// The cursor once its version has been overwritten with `v`.
    pub open spec fn set(self, v: Seq<char>) -> CursorView {
        CursorView { version: v, ..self }
    }

    /// The cursor once its version has been put back to zero.
    pub open spec fn reset(self) -> CursorView {
        self.set(zero_version())
    }

    /// The cursor once `incoming` has been seen.
    pub open spec fn merge(self, incoming: Seq<char>) -> CursorView {
        self.set(merged(self.version, incoming))
    }

    /// The cursor once the server has reported its version as expired.
    pub open spec fn arm(self) -> CursorView {
        CursorView { needs_resync: true, ..self }
    }

    /// The cursor once a pending resynchronization has been carried out: a
    /// cursor that is marked starts over from the zero version, and no
    /// cursor is marked afterwards.
    pub open spec fn resync(self) -> CursorView {
        CursorView {
            version: if self.needs_resync {
                zero_version()
            } else {
                self.version
            },
            needs_resync: false,
        }
    }
}

impl View for CursorState {
    type V = CursorView;

    closed spec fn view(&self) -> CursorView {
        CursorView { version: self.version@, needs_resync: self.needs_resync }
    }
}

impl CursorState {
    /// A cursor at the zero version, not marked for resynchronization.
    pub fn new() -> (cursor: CursorState)
        ensures
            cursor@ == CursorView::start(),
    {
        CursorState { version: zero(), needs_resync: false }
    }

    /// The stored version.
    pub fn get(&self) -> (v: String)
        ensures
            v@ == self@.version,
    {
        self.version.clone()
    }

    /// Overwrites the stored version.
    pub fn set(&mut self, v: String)
        ensures
            final(self)@ == old(self)@.set(v@),
    {
        self.version = v;
    }

    /// Puts the stored version back to zero, so that the next watch reports
    /// every live object again.
    pub fn reset(&mut self)
        ensures
            final(self)@ == old(self)@.reset(),
    {
        self.version = zero();
    }

    /// Takes note of a version that an event carried.
    pub fn merge(&mut self, incoming: &str)
        ensures
            final(self)@ == old(self)@.merge(incoming@),
    {
        let kept = merge_versions(self.version.as_str(), incoming);
        self.version = kept;
    }

    /// Whether the next poll has to resynchronize.
    pub fn needs_resync(&self) -> (b: bool)
        ensures
            b == self@.needs_resync,
    {
        self.needs_resync
    }

    /// Marks the cursor: the server no longer keeps the history after it.
    pub fn arm(&mut self)
        ensures
            final(self)@ == old(self)@.arm(),
    {
        self.needs_resync = true;
    }

    /// Carries out a pending resynchronization and clears the mark. Returns
    /// whether the version was put back to zero.
    pub fn resync(&mut self) -> (was_reset: bool)
        ensures
            final(self)@ == old(self)@.resync(),
            was_reset == old(self)@.needs_resync,
    {
        let marked = self.needs_resync;
        if marked {
            self.version = zero();
        }
        self.needs_resync = false;
        marked
    }
}

} // verus!
