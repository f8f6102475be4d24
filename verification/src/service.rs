use vstd::prelude::*;

verus! {

/// Mathematical state of the service loop: it owns the listener, runs the
/// global tick and handles process signals.  The counters record how often
/// each kind of work was done.
#[verifier::ext_equal]
pub struct ServiceModel {
    pub running: bool,
    pub sessions_spawned: nat,
    pub accept_failures: nat,
    pub aborts_handled: nat,
    pub ticks: nat,
}

/// One occurrence at the service loop's single select point.
#[derive(Clone, Copy)]
pub enum ServiceEvent {
    /// A connection was accepted.
    AcceptedOk,
    /// An accept failed.
    AcceptErr,
    /// A process signal arrived; `true` means the "abort" signal, anything
    /// else ends the loop.
    Signal(bool),
    /// The periodic timer fired.
    TickFired,
    /// The global tick callback returned; `true` means the world simulation
    /// reported itself stopped.
    TickComplete(bool),
}

/// The transition relation of the service loop.  A loop that has left its
/// `Running` state processes nothing further: termination is one-way.
pub open spec fn service_step(s: ServiceModel, e: ServiceEvent) -> ServiceModel {
    if !s.running {
        s
    } else {
        match e {
            ServiceEvent::AcceptedOk => ServiceModel {
                sessions_spawned: s.sessions_spawned + 1,
                ..s
            },
            ServiceEvent::AcceptErr => ServiceModel {
                accept_failures: s.accept_failures + 1,
                ..s
            },
            ServiceEvent::Signal(abort) => if abort {
                ServiceModel { aborts_handled: s.aborts_handled + 1, ..s }
            } else {
                ServiceModel { running: false, ..s }
            },
            ServiceEvent::TickFired => ServiceModel { ticks: s.ticks + 1, ..s },
            ServiceEvent::TickComplete(stopped) => ServiceModel { running: !stopped, ..s },
        }
    }
}

/// Folds a whole sequence of events over the transition relation.
pub open spec fn service_run(s: ServiceModel, es: Seq<ServiceEvent>) -> ServiceModel
    decreases es.len(),
{
    if es.len() == 0 {
        s
    } else {
        service_run(service_step(s, es[0]), es.drop_first())
    }
}

/// Termination is one-way: once the loop has stopped running, no sequence of
/// further events revives it; and the "abort" signal never stops it.
pub proof fn lemma_termination_one_way(s: ServiceModel, es: Seq<ServiceEvent>)
    ensures
        !s.running ==> !service_run(s, es).running,
        s.running ==> service_step(s, ServiceEvent::Signal(true)).running,
    decreases es.len(),
{
    if es.len() > 0 {
        lemma_termination_one_way(service_step(s, es[0]), es.drop_first());
    }
}

/// The executable state of the service loop that `Run` drives: a single
/// `Running`/`Terminating` flag plus ghost counters of the work done.
pub struct ServiceLoop {
    running: bool,
    sessions_spawned: Ghost<nat>,
    accept_failures: Ghost<nat>,
    aborts_handled: Ghost<nat>,
    ticks: Ghost<nat>,
}

impl View for ServiceLoop {
    type V = ServiceModel;

    closed spec fn view(&self) -> ServiceModel {
        ServiceModel {
            running: self.running,
            sessions_spawned: self.sessions_spawned@,
            accept_failures: self.accept_failures@,
            aborts_handled: self.aborts_handled@,
            ticks: self.ticks@,
        }
    }
}

impl ServiceLoop {
    /// A freshly bound service loop: running, with nothing done yet.
    pub fn new() -> (s: Self)
        ensures
            s@ == (ServiceModel {
                running: true,
                sessions_spawned: 0,
                accept_failures: 0,
                aborts_handled: 0,
                ticks: 0,
            }),
    {
        let s = ServiceLoop {
            running: true,
            sessions_spawned: Ghost(0),
            accept_failures: Ghost(0),
            aborts_handled: Ghost(0),
            ticks: Ghost(0),
        };
        proof {
            assert(s@ =~= (ServiceModel {
                running: true,
                sessions_spawned: 0,
                accept_failures: 0,
                aborts_handled: 0,
                ticks: 0,
            }));
        }
        s
    }

    /// A connection was accepted.  Returns whether to construct a session
    /// bound to a fresh engine, start it, and schedule its loop as an
    /// independent task.
    pub fn on_accept_ok(&mut self) -> (spawn: bool)
        ensures
            final(self)@ == service_step(old(self)@, ServiceEvent::AcceptedOk),
            spawn == old(self)@.running,
    {
        if self.running {
            proof {
                self.sessions_spawned@ = self.sessions_spawned@ + 1;
                assert(self@ =~= service_step(old(self)@, ServiceEvent::AcceptedOk));
            }
            true
        } else {
            proof {
                assert(self@ =~= service_step(old(self)@, ServiceEvent::AcceptedOk));
            }
            false
        }
    }

    /// An accept failed: it is logged and the listener keeps going; a single
    /// failed accept never stops the loop.
    pub fn on_accept_err(&mut self)
        ensures
            final(self)@ == service_step(old(self)@, ServiceEvent::AcceptErr),
            final(self)@.running == old(self)@.running,
    {
        proof {
            if self.running {
                self.accept_failures@ = self.accept_failures@ + 1;
            }
            assert(self@ =~= service_step(old(self)@, ServiceEvent::AcceptErr));
        }
    }

    /// A process signal arrived.  The "abort" signal (`abort == true`) has
    /// its handler invoked and the loop continues; any other signal ends the
    /// loop gracefully, without waiting for in-flight sessions.
    pub fn on_signal(&mut self, abort: bool) -> (invoke_abort_handler: bool)
        ensures
            final(self)@ == service_step(old(self)@, ServiceEvent::Signal(abort)),
            invoke_abort_handler == (old(self)@.running && abort),
            final(self)@.running == (old(self)@.running && abort),
    {
        if self.running {
            if abort {
                proof {
                    self.aborts_handled@ = self.aborts_handled@ + 1;
                    assert(self@ =~= service_step(old(self)@, ServiceEvent::Signal(abort)));
                }
                true
            } else {
                self.running = false;
                proof {
                    assert(self@ =~= service_step(old(self)@, ServiceEvent::Signal(abort)));
                }
                false
            }
        } else {
            proof {
                assert(self@ =~= service_step(old(self)@, ServiceEvent::Signal(abort)));
            }
            false
        }
    }

    /// The periodic timer fired.  Returns whether to invoke the global tick
    /// callback synchronously and then flush buffered log output.
    pub fn on_tick(&mut self) -> (run_callback: bool)
        ensures
            final(self)@ == service_step(old(self)@, ServiceEvent::TickFired),
            run_callback == old(self)@.running,
    {
        proof {
            if self.running {
                self.ticks@ = self.ticks@ + 1;
            }
            assert(self@ =~= service_step(old(self)@, ServiceEvent::TickFired));
        }
        self.running
    }

    /// The global tick callback returned; the world-simulation variant of the
    /// loop stops when the callback reports the world stopped.
    pub fn on_tick_complete(&mut self, world_stopped: bool)
        ensures
            final(self)@ == service_step(old(self)@, ServiceEvent::TickComplete(world_stopped)),
    {
        if self.running && world_stopped {
            self.running = false;
        }
        proof {
            assert(self@ =~= service_step(old(self)@, ServiceEvent::TickComplete(world_stopped)));
        }
    }

    /// Whether the loop is still in its `Running` state.
    pub fn is_running(&self) -> (r: bool)
        ensures
            r == self@.running,
    {
        self.running
    }
}

} // verus!
