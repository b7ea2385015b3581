//! The watch session: what to do at the start of a poll, and what each event
//! of a watch does to the cursor.
//!
//! The session makes the decisions and leaves the waiting to its caller. A
//! caller asks `poll` what comes next. If the answer is a backoff, it sleeps
//! and then calls `resume`. It opens the watch that it is handed, and passes
//! every item of that watch through `observe` or `intercept` before it hands
//! the item on. When the watch ends, the caller polls again.

use crate::api::{ListParams, ListParamsView, WatchEvent, WatchRequest, WatchRequestView};
use crate::cursor::{CursorState, CursorView};
use vstd::prelude::*;

verus! {

/// How many seconds a session waits before it starts over, once the server
/// has reported its version as expired.
pub const RESYNC_BACKOFF_SECONDS: u64 = 10;

/// Where a session stands in its life.
#[derive(Clone, Copy, Debug, PartialEq, Eq, Structural)]
pub enum Phase {
    /// No watch has been asked for yet.
    Idle,
    /// A watch has been asked for, and its events move the cursor.
    Watching,
    /// The server has reported the cursor as expired. The next poll has to
    /// start over.
    Desynced,
    /// A poll has found the cursor expired and is backing off.
    Resyncing,
}

/// What the caller has to do next.
#[derive(Debug, PartialEq, Eq)]
pub enum PollAction {
    /// Wait this many seconds, then call `resume`.
    Backoff(u64),
    /// Open this watch.
    Watch(WatchRequest),
}

impl Clone for PollAction {
    fn clone(&self) -> (action: PollAction)
        ensures
            action == *self,
    {
        match self {
            PollAction::Backoff(seconds) => PollAction::Backoff(*seconds),
            PollAction::Watch(request) => PollAction::Watch(request.clone()),
        }
    }
}

/// What a `PollAction` holds.
pub enum PollActionView {
    Backoff(u64),
    Watch(WatchRequestView),
}

impl View for PollAction {
    type V = PollActionView;

    open spec fn view(&self) -> PollActionView {
        match self {
            PollAction::Backoff(seconds) => PollActionView::Backoff(*seconds),
            PollAction::Watch(request) => PollActionView::Watch(request@),
        }
    }
}

/// A watch session over one kind of resource.
#[derive(Debug)]
pub struct Informer {
    cursor: CursorState,
    params: ListParams,
    phase: Phase,
}

/// What an `Informer` holds.
pub struct InformerView {
    pub cursor: CursorView,
    pub params: ListParamsView,
    pub phase: Phase,
}

impl InformerView {
    /// A session is marked for resynchronization exactly while it is
    /// desynced or resyncing.
    pub open spec fn wf(self) -> bool {
        self.cursor.needs_resync == (self.phase is Desynced || self.phase is Resyncing)
    }

    /// The session that has done nothing yet.
    pub open spec fn start() -> InformerView {
        InformerView {
            cursor: CursorView::start(),
            params: ListParamsView::empty(),
            phase: Phase::Idle,
        }
    }

    /// The session with another configuration.
    pub open spec fn with_params(self, params: ListParamsView) -> InformerView {
        InformerView { params, ..self }
    }

    /// The session with its version overwritten.
    pub open spec fn with_version(self, v: Seq<char>) -> InformerView {
        InformerView { cursor: self.cursor.set(v), ..self }
    }

    /// The session with its version put back to zero.
    pub open spec fn reset(self) -> InformerView {
        InformerView { cursor: self.cursor.reset(), ..self }
    }

    /// The watch that the session asks for in its present state.
    pub open spec fn request(self) -> WatchRequestView {
        self.params.request_at(self.cursor.version)
    }

    /// What a poll asks of the caller.
    pub open spec fn poll_action(self) -> PollActionView {
        if self.cursor.needs_resync {
            PollActionView::Backoff(RESYNC_BACKOFF_SECONDS)
        } else {
            PollActionView::Watch(self.request())
        }
    }

    /// The session after a poll. The cursor is left as it is.
    pub open spec fn poll(self) -> InformerView {
        InformerView {
            phase: if self.cursor.needs_resync {
                Phase::Resyncing
            } else {
                Phase::Watching
            },
            ..self
        }
    }

    /// The session after a backoff: a cursor that is still marked starts
    /// over from the zero version, the mark is cleared, and a watch opens.
    pub open spec fn resume(self) -> InformerView {
        InformerView { cursor: self.cursor.resync(), phase: Phase::Watching, ..self }
    }

    /// The session after one item of a watch. An addition, a modification or
    /// a deletion merges the version that it carries, if it carries one. An
    /// error with the code for expired history marks the cursor. Any other
    /// error, and a failure of the transport, changes nothing.
    pub open spec fn observe<E>(self, item: Result<WatchEvent, E>) -> InformerView {
        match item {
            Ok(event) => {
                if event.history_expired() {
                    InformerView { cursor: self.cursor.arm(), phase: Phase::Desynced, ..self }
                } else {
                    match event.version() {
                        Some(v) => InformerView { cursor: self.cursor.merge(v), ..self },
                        None => self,
                    }
                }
            },
            Err(_) => self,
        }
    }

    /// The session after the items of a watch, in the order in which they
    /// arrived.
    pub open spec fn observe_all<E>(self, items: Seq<Result<WatchEvent, E>>) -> InformerView
        decreases items.len(),
    {
        if items.len() == 0 {
            self
        } else {
            self.observe_all(items.drop_last()).observe(items.last())
        }
    }
}

impl View for Informer {
    type V = InformerView;

    closed spec fn view(&self) -> InformerView {
        InformerView { cursor: self.cursor@, params: self.params@, phase: self.phase }
    }
}

impl Informer {
    /// A session at the zero version, with the default configuration.
    pub fn new() -> (informer: Informer)
        ensures
            informer@ == InformerView::start(),
            informer@.wf(),
    {
        Informer { cursor: CursorState::new(), params: ListParams::default(), phase: Phase::Idle }
    }

    /// Replaces the configuration of the watch. The stored version stays
    /// under the session's own control.
    pub fn params(self, lp: ListParams) -> (informer: Informer)
        ensures
            informer@ == self@.with_params(lp@),
            self@.wf() ==> informer@.wf(),
    {
        Informer { cursor: self.cursor, params: lp, phase: self.phase }
    }

    /// Overrides the stored version with one that the caller has tracked.
    pub fn set_version(self, v: String) -> (informer: Informer)
        ensures
            informer@ == self@.with_version(v@),
            self@.wf() ==> informer@.wf(),
    {
        let mut cursor = self.cursor;
        cursor.set(v);
        Informer { cursor, params: self.params, phase: self.phase }
    }

    /// Puts the stored version back to zero. The next watch then reports
    /// every live object as added.
    pub fn reset(&mut self)
        ensures
            final(self)@ == old(self)@.reset(),
            old(self)@.wf() ==> final(self)@.wf(),
    {
        self.cursor.reset();
    }

    /// The stored version.
    pub fn version(&self) -> (v: String)
        ensures
            v@ == self@.cursor.version,
    {
        self.cursor.get()
    }

    /// Where the session stands.
    pub fn phase(&self) -> (phase: Phase)
        ensures
            phase == self@.phase,
    {
        self.phase
    }

    /// Starts a poll. A session whose cursor the server has reported as
    /// expired is told to back off first. Any other session is handed the
    /// watch to open, which starts at the stored version.
    pub fn poll(&mut self) -> (action: PollAction)
        ensures
            action@ == old(self)@.poll_action(),
            final(self)@ == old(self)@.poll(),
            final(self)@.wf(),
    {
        if self.cursor.needs_resync() {
            self.phase = Phase::Resyncing;
            PollAction::Backoff(RESYNC_BACKOFF_SECONDS)
        } else {
            self.phase = Phase::Watching;
            PollAction::Watch(self.params.request_at(self.cursor.get()))
        }
    }

    /// Goes on with a poll once the backoff is over. A cursor that is still
    /// marked is put back to zero. The mark is cleared, and the caller is
    /// handed the watch to open.
    pub fn resume(&mut self) -> (request: WatchRequest)
        ensures
            final(self)@ == old(self)@.resume(),
            request@ == final(self)@.request(),
            final(self)@.wf(),
    {
        self.cursor.resync();
        self.phase = Phase::Watching;
        self.params.request_at(self.cursor.get())
    }

    /// Takes note of one item of a watch.
    pub fn observe<E>(&mut self, item: &Result<WatchEvent, E>)
        ensures
            final(self)@ == old(self)@.observe(*item),
            old(self)@.wf() ==> final(self)@.wf(),
    {
        match item {
            Ok(event) => {
                if event.is_history_expired() {
                    self.cursor.arm();
                    self.phase = Phase::Desynced;
                } else {
                    match event.resource_ver() {
                        Some(v) => {
                            self.cursor.merge(v.as_str());
                        },
                        None => {},
                    }
                }
            },
            Err(_) => {},
        }
    }

    /// Takes note of one item of a watch and hands it on as it came.
    pub fn intercept<E>(&mut self, item: Result<WatchEvent, E>) -> (out: Result<WatchEvent, E>)
        ensures
            out == item,
            final(self)@ == old(self)@.observe(item),
            old(self)@.wf() ==> final(self)@.wf(),
    {
        self.observe(&item);
        item
    }

    /// Takes note of the items of a watch, in order, and hands them on as
    /// they came.
    pub fn intercept_all<E>(&mut self, items: Vec<Result<WatchEvent, E>>) -> (out: Vec<
        Result<WatchEvent, E>,
    >)
        ensures
            out == items,
            final(self)@ == old(self)@.observe_all(items@),
            old(self)@.wf() ==> final(self)@.wf(),
    {
        let mut i: usize = 0;
        while i < items.len()
            invariant
                i <= items.len(),
                self@ == old(self)@.observe_all(items@.take(i as int)),
                old(self)@.wf() ==> self@.wf(),
            decreases items.len() - i,
        {
            self.observe(&items[i]);
            proof {
                assert(items@.take(i + 1).drop_last() =~= items@.take(i as int));
            }
            i += 1;
        }
        proof {
            assert(items@.take(i as int) =~= items@);
        }
        items
    }
}

} // verus!
