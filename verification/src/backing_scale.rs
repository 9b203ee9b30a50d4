//! Reading a view's backing scale factor through its window.

use vstd::prelude::*;

verus! {

/// A window's `backingScaleFactor` (2.0 on standard Retina displays, 1.0 on
/// 1x displays), held as the bit pattern of its `CGFloat`, an IEEE 754 binary64
/// value (`f64::to_bits`). The crate carries the value and never computes
/// with it.
#[derive(Clone, Copy, Debug, PartialEq, Eq)]
pub struct BackingScale {
    pub bits: u64,
}

/// The message that the scale query wants sent next.
#[derive(Clone, Copy, Debug, PartialEq, Eq)]
pub enum ScaleRequest {
    /// Send `window` to the view.
    ViewWindow,
    /// Send `backingScaleFactor` to the window just obtained.
    WindowScale,
    /// Nothing more to send: the query's answer, `None` for a view that is
    /// not attached to a window.
    Done(Option<BackingScale>),
}

/// The answer to a [`ScaleRequest`].
#[derive(Clone, Copy, Debug, PartialEq, Eq)]
pub enum ScaleReply {
    /// What `window` returned: a window, or `nil`.
    Window { attached: bool },
    /// What `backingScaleFactor` returned.
    Scale(BackingScale),
}

/// Where a query of a view's backing scale factor stands.
#[derive(Clone, Copy, Debug, PartialEq, Eq)]
pub enum ScaleQuery {
    /// Waiting for the view's window.
    AwaitWindow,
    /// The view has a window; waiting for its backing scale factor.
    AwaitScale,
    /// The query is over, with its answer.
    Finished(Option<BackingScale>),
}

impl ScaleQuery {
    /// The request that belongs to each stage.
    pub open spec fn spec_request(self) -> ScaleRequest {
        match self {
            ScaleQuery::AwaitWindow => ScaleRequest::ViewWindow,
            ScaleQuery::AwaitScale => ScaleRequest::WindowScale,
            ScaleQuery::Finished(answer) => ScaleRequest::Done(answer),
        }
    }

    /// The stage after a reply. A `nil` window ends the query with no scale
    /// (the window is never messaged); the window's factor ends it with that
    /// factor. A reply that does not answer the stage's request leaves the
    /// stage as it is.
    pub open spec fn spec_after(self, reply: ScaleReply) -> ScaleQuery {
        match (self, reply) {
            (ScaleQuery::AwaitWindow, ScaleReply::Window { attached }) => {
                if attached {
                    ScaleQuery::AwaitScale
                } else {
                    ScaleQuery::Finished(None)
                }
            },
            (ScaleQuery::AwaitScale, ScaleReply::Scale(scale)) => ScaleQuery::Finished(Some(scale)),
            _ => self,
        }
    }

    /// A new query, which first wants the view's window.
    pub fn start() -> (query: ScaleQuery)
        ensures
            query == ScaleQuery::AwaitWindow,
            query.spec_request() == ScaleRequest::ViewWindow,
    {
        ScaleQuery::AwaitWindow
    }

    /// The message to send next.
    pub fn request(&self) -> (request: ScaleRequest)
        ensures
            request == self.spec_request(),
    {
        match *self {
            ScaleQuery::AwaitWindow => ScaleRequest::ViewWindow,
            ScaleQuery::AwaitScale => ScaleRequest::WindowScale,
            ScaleQuery::Finished(answer) => ScaleRequest::Done(answer),
        }
    }

    /// Takes the reply to the current request and moves to the next stage.
    pub fn after(self, reply: ScaleReply) -> (next: ScaleQuery)
        ensures
            next == self.spec_after(reply),
    {
        match (self, reply) {
            (ScaleQuery::AwaitWindow, ScaleReply::Window { attached }) => {
                if attached {
                    ScaleQuery::AwaitScale
                } else {
                    ScaleQuery::Finished(None)
                }
            },
            (ScaleQuery::AwaitScale, ScaleReply::Scale(scale)) => ScaleQuery::Finished(Some(scale)),
            _ => self,
        }
    }
}

/// What a view answers during one scale query: whether it is attached to a
/// window, and that window's backing scale factor.
pub struct WindowSnapshot {
    pub attached: bool,
    pub scale: BackingScale,
}

/// The reply that `view` gives to `request`.
pub open spec fn scale_reply(request: ScaleRequest, view: WindowSnapshot) -> ScaleReply {
    match request {
        ScaleRequest::ViewWindow => ScaleReply::Window { attached: view.attached },
        ScaleRequest::WindowScale => ScaleReply::Scale(view.scale),
        ScaleRequest::Done(_) => ScaleReply::Window { attached: view.attached },
    }
}

/// The stage reached after `steps` request and reply rounds against `view`.
pub open spec fn scale_run(query: ScaleQuery, view: WindowSnapshot, steps: nat) -> ScaleQuery
    decreases steps,
{
    if steps == 0 {
        query
    } else {
        scale_run(query.spec_after(scale_reply(query.spec_request(), view)), view, (steps - 1) as nat)
    }
}

/// The messages sent in up to `steps` rounds against `view`, until the query
/// is finished.
pub open spec fn scale_messages(query: ScaleQuery, view: WindowSnapshot, steps: nat) -> Seq<ScaleRequest>
    decreases steps,
{
    if steps == 0 || query is Finished {
        Seq::empty()
    } else {
        seq![query.spec_request()] + scale_messages(
            query.spec_after(scale_reply(query.spec_request(), view)),
            view,
            (steps - 1) as nat,
        )
    }
}

/// The backing scale that a query against `view` reports: none for a view
/// detached from any window, else its window's factor.
pub open spec fn backing_scale_of(view: WindowSnapshot) -> Option<BackingScale> {
    if view.attached {
        Some(view.scale)
    } else {
        None
    }
}

/// A scale query, answered by any view, is finished within two rounds and
/// reports `backing_scale_of` that view; the window is asked for its factor
/// only when the view has one.
pub proof fn lemma_scale_query_outcome(view: WindowSnapshot)
    ensures
        scale_run(ScaleQuery::AwaitWindow, view, 2) == ScaleQuery::Finished(backing_scale_of(view)),
        scale_messages(ScaleQuery::AwaitWindow, view, 2) == (if view.attached {
            seq![ScaleRequest::ViewWindow, ScaleRequest::WindowScale]
        } else {
            seq![ScaleRequest::ViewWindow]
        }),
{
    reveal_with_fuel(scale_run, 3);
    reveal_with_fuel(scale_messages, 3);
}

/// Once finished, a scale query keeps its answer whatever it is told.
pub proof fn lemma_scale_query_finished_is_final(answer: Option<BackingScale>, reply: ScaleReply)
    ensures
        ScaleQuery::Finished(answer).spec_after(reply) == ScaleQuery::Finished(answer),
        ScaleQuery::Finished(answer).spec_request() == ScaleRequest::Done(answer),
{
}

} // verus!
