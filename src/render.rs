//! Rendering a document URL into a bitmap through a headless browser: the
//! order of the browser operations of one render, as a state machine that a
//! driver runs, performing each action and reporting how it went.
use vstd::prelude::*;

use crate::error::{Canonical, IntoCanonical};

verus! {

/// The width of the browser's viewport, in pixels.
pub const VIEWPORT_WIDTH: u32 = 800;

/// The height of the browser's viewport, in pixels.
pub const VIEWPORT_HEIGHT: u32 = 480;

/// How long a page is left to settle its layout before the capture, in
/// milliseconds.
pub const SETTLE_MS: u64 = 1300;

/// Why rendering failed.
#[derive(Debug, Clone)]
pub enum Error {
    Setup(String),
    CouldNotCreateContext,
    InternalRender(String),
    InvalidUrl(String),
    NotFound,
    Image,
    Other(String),
}

impl IntoCanonical for Error {
    fn into_canonical(self) -> (r: Canonical)
        ensures
            r == (if self is NotFound {
                Canonical::NotFound
            } else {
                Canonical::InternalRenderFailure
            }),
    {
        match self {
            Error::NotFound => Canonical::NotFound,
            _ => Canonical::InternalRenderFailure,
        }
    }
}

/// The next operation for the driver.
#[derive(Debug)]
pub enum RenderAction {
    /// Create an isolated browsing context.
    CreateContext,
    /// Open a page in the context and navigate it to the document.
    Navigate,
    /// Wait `SETTLE_MS` for layout and fonts.
    Settle,
    /// Capture a screenshot of the root element.
    Capture,
    /// Dispose of the browsing context.
    DisposeContext,
    /// Decode the captured bytes into a bitmap.
    Decode,
    /// The render is over, with this outcome.
    Finish(Result<(), Error>),
}

/// Where a render stands.
#[derive(Debug)]
pub enum RenderState {
    Creating,
    Opening,
    Settling,
    Capturing,
    /// The context is being disposed of, after the failure if any.
    Disposing(Option<Error>),
    Decoding,
    Finished,
}

/// What follows the outcome of the current operation: a failure once a
/// context exists leads to its disposal, and the first failure is the one
/// reported.
pub open spec fn render_step(s: RenderState, outcome: Result<(), Error>) -> (RenderState, RenderAction) {
    match s {
        RenderState::Creating => match outcome {
            Ok(_) => (RenderState::Opening, RenderAction::Navigate),
            Err(e) => (RenderState::Finished, RenderAction::Finish(Err(e))),
        },
        RenderState::Opening => match outcome {
            Ok(_) => (RenderState::Settling, RenderAction::Settle),
            Err(e) => (RenderState::Disposing(Some(e)), RenderAction::DisposeContext),
        },
        RenderState::Settling => match outcome {
            Ok(_) => (RenderState::Capturing, RenderAction::Capture),
            Err(e) => (RenderState::Disposing(Some(e)), RenderAction::DisposeContext),
        },
        RenderState::Capturing => match outcome {
            Ok(_) => (RenderState::Disposing(None), RenderAction::DisposeContext),
            Err(e) => (RenderState::Disposing(Some(e)), RenderAction::DisposeContext),
        },
        RenderState::Disposing(failure) => match failure {
            Some(f) => (RenderState::Finished, RenderAction::Finish(Err(f))),
            None => match outcome {
                Ok(_) => (RenderState::Decoding, RenderAction::Decode),
                Err(e) => (RenderState::Finished, RenderAction::Finish(Err(e))),
            },
        },
        RenderState::Decoding => match outcome {
            Ok(_) => (RenderState::Finished, RenderAction::Finish(Ok(()))),
            Err(e) => (RenderState::Finished, RenderAction::Finish(Err(e))),
        },
        RenderState::Finished => (RenderState::Finished, RenderAction::Finish(outcome)),
    }
}

/// One render of a document.
#[derive(Debug)]
pub struct RenderSession {
    pub state: RenderState,
}

impl RenderSession {
    /// A new render, whose first operation is creating its context.
    pub fn start() -> (r: (RenderSession, RenderAction))
        ensures
            r.0.state is Creating,
            r.1 is CreateContext,
    {
        (RenderSession { state: RenderState::Creating }, RenderAction::CreateContext)
    }

    /// Whether the render is over.
    pub fn is_finished(&self) -> (r: bool)
        ensures
            r == self.state is Finished,
    {
        match self.state {
            RenderState::Finished => true,
            _ => false,
        }
    }

    /// The next operation, given how the current one went.
    pub fn advance(self, outcome: Result<(), Error>) -> (r: (RenderSession, RenderAction))
        requires
            !(self.state is Finished),
        ensures
            (r.0.state, r.1) == render_step(self.state, outcome),
    {
        let (state, action) = match self.state {
            RenderState::Creating => match outcome {
                Ok(_) => (RenderState::Opening, RenderAction::Navigate),
                Err(e) => (RenderState::Finished, RenderAction::Finish(Err(e))),
            },
            RenderState::Opening => match outcome {
                Ok(_) => (RenderState::Settling, RenderAction::Settle),
                Err(e) => (RenderState::Disposing(Some(e)), RenderAction::DisposeContext),
            },
            RenderState::Settling => match outcome {
                Ok(_) => (RenderState::Capturing, RenderAction::Capture),
                Err(e) => (RenderState::Disposing(Some(e)), RenderAction::DisposeContext),
            },
            RenderState::Capturing => match outcome {
                Ok(_) => (RenderState::Disposing(None), RenderAction::DisposeContext),
                Err(e) => (RenderState::Disposing(Some(e)), RenderAction::DisposeContext),
            },
            RenderState::Disposing(failure) => match failure {
                Some(f) => (RenderState::Finished, RenderAction::Finish(Err(f))),
                None => match outcome {
                    Ok(_) => (RenderState::Decoding, RenderAction::Decode),
                    Err(e) => (RenderState::Finished, RenderAction::Finish(Err(e))),
                },
            },
            RenderState::Decoding => match outcome {
                Ok(_) => (RenderState::Finished, RenderAction::Finish(Ok(()))),
                Err(e) => (RenderState::Finished, RenderAction::Finish(Err(e))),
            },
            RenderState::Finished => (RenderState::Finished, RenderAction::Finish(outcome)),
        };
        (RenderSession { state }, action)
    }
}

/// The operations that a render performs from state `s` when its operations
/// end as `outcomes` says, up to and including its finish.
pub open spec fn render_actions(s: RenderState, outcomes: Seq<Result<(), Error>>) -> Seq<RenderAction>
    decreases outcomes.len(),
{
    if s is Finished || outcomes.len() == 0 {
        Seq::empty()
    } else {
        let (next, action) = render_step(s, outcomes[0]);
        seq![action] + render_actions(next, outcomes.drop_first())
    }
}

/// The operations of a whole render: creating the context, then what follows.
pub open spec fn render_run(outcomes: Seq<Result<(), Error>>) -> Seq<RenderAction> {
    seq![RenderAction::CreateContext] + render_actions(RenderState::Creating, outcomes)
}

/// A render in which every operation succeeds creates one context, navigates
/// once, waits once, captures once, disposes of the context once, decodes
/// the capture and finishes successfully, in that order.
pub proof fn successful_render_order(outcomes: Seq<Result<(), Error>>)
    requires
        outcomes.len() == 6,
        forall|i: int| 0 <= i < 6 ==> #[trigger] outcomes[i] is Ok,
    ensures
        render_run(outcomes) == seq![
            RenderAction::CreateContext,
            RenderAction::Navigate,
            RenderAction::Settle,
            RenderAction::Capture,
            RenderAction::DisposeContext,
            RenderAction::Decode,
            RenderAction::Finish(Ok(())),
        ],
{
    reveal_with_fuel(render_actions, 7);
    assert(render_run(outcomes) =~= seq![
        RenderAction::CreateContext,
        RenderAction::Navigate,
        RenderAction::Settle,
        RenderAction::Capture,
        RenderAction::DisposeContext,
        RenderAction::Decode,
        RenderAction::Finish(Ok(())),
    ]);
}

/// Once its context exists, a render disposes of it before it finishes,
/// whatever fails: with enough outcomes the run finishes, and a disposal
/// comes before the finish.
pub proof fn context_disposed_on_every_exit(outcomes: Seq<Result<(), Error>>)
    requires
        outcomes.len() >= 6,
        outcomes[0] is Ok,
    ensures
        ({
            let acts = render_run(outcomes);
            &&& acts.len() >= 2
            &&& acts.last() is Finish
            &&& exists|i: int| 0 <= i < acts.len() - 1 && acts[i] is DisposeContext
        }),
{
    reveal_with_fuel(render_actions, 7);
    let acts = render_run(outcomes);
    let o = outcomes;
    let r1 = o.drop_first();
    let r2 = r1.drop_first();
    let r3 = r2.drop_first();
    let r4 = r3.drop_first();
    let r5 = r4.drop_first();
    assert(r1[0] == o[1] && r2[0] == o[2] && r3[0] == o[3] && r4[0] == o[4] && r5[0] == o[5]);
    if o[1] is Err {
        assert(acts[2] is DisposeContext);
    } else if o[2] is Err {
        assert(acts[3] is DisposeContext);
    } else if o[3] is Err {
        assert(acts[4] is DisposeContext);
    } else {
        assert(acts[4] is DisposeContext);
    }
}

} // verus!
