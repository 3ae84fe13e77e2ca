//! The engine-readiness cell.
//!
//! The rendering engine is initialized exactly once per process: the first
//! caller begins the initialization, concurrent callers await the same
//! in-flight initialization, and every later caller uses the cached ready
//! engine. This module is the decision logic of that guard; the host runs
//! the actual asynchronous initialization and reports its completion.

use vstd::prelude::*;

verus! {

/// Lifecycle of the process-wide engine handle.
#[derive(Debug, Clone, Copy, PartialEq, Eq, Structural)]
pub enum EngineState {
    /// No initialization has begun.
    Uninitialized,
    /// One initialization is in flight.
    Initializing,
    /// The engine is ready and shared read-only by all pages.
    Ready,
}

/// What a caller asking for the engine must do next.
#[derive(Debug, Clone, Copy, PartialEq, Eq, Structural)]
pub enum EngineRequest {
    /// This caller is the first: it must run the initialization and report
    /// the outcome.
    BeginInit,
    /// An initialization is already in flight: await its completion.
    AwaitExisting,
    /// The engine is ready: use the cached handle.
    UseEngine,
}

/// The once-initialization guard of the engine handle.
#[derive(Debug, Clone, Copy, PartialEq, Eq, Structural)]
pub struct EngineCell {
    /// Current lifecycle state.
    pub state: EngineState,
}

impl EngineCell {
    /// A fresh guard: nothing has begun.
    pub fn new() -> (c: Self)
        ensures
            c.state is Uninitialized,
    {
        EngineCell { state: EngineState::Uninitialized }
    }

    /// Ask for the engine. Only the very first request (and a request
    /// after a reported failure) begins an initialization: concurrent and
    /// later callers are directed to the in-flight or cached result, so
    /// the engine is never initialized twice.
    pub fn request(&mut self) -> (r: EngineRequest)
        ensures
            match old(self).state {
                EngineState::Uninitialized => final(self).state is Initializing
                    && r is BeginInit,
                EngineState::Initializing => *final(self) == *old(self) && r is AwaitExisting,
                EngineState::Ready => *final(self) == *old(self) && r is UseEngine,
            },
    {
        match self.state {
            EngineState::Uninitialized => {
                self.state = EngineState::Initializing;
                EngineRequest::BeginInit
            },
            EngineState::Initializing => EngineRequest::AwaitExisting,
            EngineState::Ready => EngineRequest::UseEngine,
        }
    }

    /// The in-flight initialization completed: the handle is cached for
    /// the process lifetime.
    pub fn initialized(&mut self)
        requires
            old(self).state is Initializing,
        ensures
            final(self).state is Ready,
    {
        self.state = EngineState::Ready;
    }

    /// The in-flight initialization failed: the guard returns to the
    /// initial state so that a later request may try again.
    pub fn init_failed(&mut self)
        requires
            old(self).state is Initializing,
        ensures
            final(self).state is Uninitialized,
    {
        self.state = EngineState::Uninitialized;
    }
}

} // verus!
