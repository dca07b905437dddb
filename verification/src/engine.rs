use vstd::prelude::*;

verus! {

/// Where the one engine stands in the life of the process.
#[derive(Clone, Copy, Debug, PartialEq, Eq, Structural)]
pub enum EngineState {
    /// Not yet initialized: no invocation may reach it.
    Uninitialized,
    /// Initialized: it takes invocations, one at a time.
    Ready,
    /// Its initialization failed. This is final: it is not tried again.
    Failed,
}

/// What the process does next at startup.
#[derive(Clone, Copy, Debug, PartialEq, Eq, Structural)]
pub enum Startup {
    /// Initialize the engine.
    Initialize,
    /// Begin to serve requests.
    Serve,
    /// Give up with a diagnostic: no request is ever served.
    Abort,
}

impl EngineState {
    /// The state after an attempt to initialize ended. Only the first attempt
    /// counts: a ready engine stays ready, a failed one stays failed.
    pub open spec fn after_initialize(self, succeeded: bool) -> EngineState {
        match self {
            EngineState::Uninitialized => if succeeded {
                EngineState::Ready
            } else {
                EngineState::Failed
            },
            _ => self,
        }
    }

    /// What the process does next in this state.
    pub open spec fn startup(self) -> Startup {
        match self {
            EngineState::Uninitialized => Startup::Initialize,
            EngineState::Ready => Startup::Serve,
            EngineState::Failed => Startup::Abort,
        }
    }

    /// Records how an attempt to initialize the engine ended.
    pub fn initialized(self, succeeded: bool) -> (state: EngineState)
        ensures
            state == self.after_initialize(succeeded),
    {
        match self {
            EngineState::Uninitialized => if succeeded {
                EngineState::Ready
            } else {
                EngineState::Failed
            },
            _ => self,
        }
    }

    /// Says what the process does next.
    pub fn next(self) -> (step: Startup)
        ensures
            step == self.startup(),
    {
        match self {
            EngineState::Uninitialized => Startup::Initialize,
            EngineState::Ready => Startup::Serve,
            EngineState::Failed => Startup::Abort,
        }
    }

    /// Whether an invocation may reach the engine.
    pub fn accepts_invocations(self) -> (ready: bool)
        ensures
            ready == (self.startup() == Startup::Serve),
    {
        match self {
            EngineState::Ready => true,
            _ => false,
        }
    }
}

/// The state of an engine after the attempts to initialize it ended as
/// `attempts` says, in that order.
pub open spec fn after_attempts(attempts: Seq<bool>) -> EngineState
    decreases attempts.len(),
{
    if attempts.len() == 0 {
        EngineState::Uninitialized
    } else {
        after_attempts(attempts.drop_last()).after_initialize(attempts.last())
    }
}

/// The engine is initialized once: the process serves exactly when the first
/// attempt succeeded, and aborts exactly when the first attempt failed,
/// however many attempts follow.
pub proof fn lemma_first_attempt_decides(attempts: Seq<bool>)
    ensures
        after_attempts(attempts).startup() == Startup::Initialize <==> attempts.len() == 0,
        after_attempts(attempts).startup() == Startup::Serve <==> attempts.len() > 0 && attempts[0],
        after_attempts(attempts).startup() == Startup::Abort <==> attempts.len() > 0 && !attempts[0],
    decreases attempts.len(),
{
    if attempts.len() > 0 {
        lemma_first_attempt_decides(attempts.drop_last());
    }
}

} // verus!
