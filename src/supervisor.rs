use vstd::prelude::*;

verus! {

/// Prefix of the line logged when the backend could not be started.
pub const START_FAILURE_PREFIX: &'static str = "Failed to start backend: ";

/// The window lifecycle events that the supervisor tells apart.
#[derive(PartialEq, Eq, Structural, Clone, Copy, Debug)]
pub enum WindowLifecycle {
    /// The window was destroyed: the application is going away.
    Destroyed,
    /// Any other window event.
    Other,
}

/// Holds the single backend process handle for the application's lifetime.
/// `H` is the handle type; the supervisor never inspects it.
pub struct BackendSupervisor<H> {
    process: Option<H>,
}

/// The state after `event` and the handle to terminate, if any: a destroyed
/// window takes the handle out, leaving nothing behind; other events change
/// nothing.
pub open spec fn teardown_step<H>(process: Option<H>, event: WindowLifecycle) -> (Option<H>, Option<H>) {
    match event {
        WindowLifecycle::Destroyed => (None, process),
        WindowLifecycle::Other => (process, None),
    }
}

/// The state after a run of window events, and how many terminations they
/// asked for.
pub open spec fn run_events<H>(process: Option<H>, events: Seq<WindowLifecycle>) -> (Option<H>, nat)
    decreases events.len(),
{
    if events.len() == 0 {
        (process, 0)
    } else {
        let (next, kill) = teardown_step(process, events[0]);
        let (last, kills) = run_events(next, events.drop_first());
        (last, kills + if kill is Some { 1nat } else { 0nat })
    }
}

impl<H> BackendSupervisor<H> {
    /// The handle currently held.
    pub closed spec fn process(&self) -> Option<H> {
        self.process
    }

    /// A supervisor that holds no handle yet.
    pub fn new() -> (s: Self)
        ensures
            s.process() is None,
    {
        BackendSupervisor { process: None }
    }

    /// True while a handle is held.
    pub fn is_running(&self) -> (r: bool)
        ensures
            r == self.process() is Some,
    {
        self.process.is_some()
    }

    /// Records the outcome of starting the backend: a started process is
    /// held from now on; a launch error leaves the state as it was and gives
    /// back the line to log.
    pub fn record_launch(&mut self, outcome: Result<H, String>) -> (log: Option<String>)
        ensures
            match outcome {
                Ok(h) => final(self).process() == Some(h) && log is None,
                Err(e) => final(self).process() == old(self).process() && log is Some
                    && log->0@ == START_FAILURE_PREFIX@ + e@,
            },
    {
        match outcome {
            Ok(h) => {
                self.process = Some(h);
                None
            },
            Err(e) => {
                let mut line = String::from_str(START_FAILURE_PREFIX);
                line.append(e.as_str());
                Some(line)
            },
        }
    }

    /// Handles a window event; returns the handle that the caller must
    /// terminate, if any.
    pub fn on_window_event(&mut self, event: WindowLifecycle) -> (to_kill: Option<H>)
        ensures
            (final(self).process(), to_kill) == teardown_step(old(self).process(), event),
    {
        match event {
            WindowLifecycle::Destroyed => self.process.take(),
            WindowLifecycle::Other => None,
        }
    }
}

/// After any run of window events that holds a destroyed event, no handle is
/// left, and the whole run asks for at most one termination: a second
/// teardown finds nothing to terminate.
pub proof fn lemma_teardown_idempotent<H>(process: Option<H>, events: Seq<WindowLifecycle>)
    ensures
        run_events(process, events).1 <= 1,
        events.contains(WindowLifecycle::Destroyed) ==> run_events(process, events).0 is None,
        process is None ==> run_events(process, events).1 == 0,
    decreases events.len(),
{
    if events.len() > 0 {
        let (next, kill) = teardown_step(process, events[0]);
        lemma_teardown_idempotent(next, events.drop_first());
        if kill is Some {
            assert(next is None);
        }
        if events.contains(WindowLifecycle::Destroyed) && events[0] != WindowLifecycle::Destroyed {
            let k = choose|k: int| 0 <= k < events.len() && events[k] == WindowLifecycle::Destroyed;
            assert(events.drop_first()[k - 1] == WindowLifecycle::Destroyed);
        }
        if events[0] == WindowLifecycle::Destroyed {
            lemma_none_stays_none::<H>(events.drop_first());
        }
    }
}

/// With no handle held, no run of events produces one or asks for a
/// termination.
proof fn lemma_none_stays_none<H>(events: Seq<WindowLifecycle>)
    ensures
        run_events(None::<H>, events).0 is None,
        run_events(None::<H>, events).1 == 0,
    decreases events.len(),
{
    if events.len() > 0 {
        lemma_none_stays_none::<H>(events.drop_first());
    }
}

} // verus!
