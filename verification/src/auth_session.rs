use vstd::prelude::*;
use crate::net::{Session, WoWPacket};

verus! {

/// Mathematical state of one connection session.
///
/// The session owns the two halves of the byte stream and drives a protocol
/// engine.  `arrived` holds every byte read off the socket, `fed` the bytes
/// that were handed to the engine, `queued` the outbound bytes submitted but
/// not yet written, and `wired` the bytes that reached the wire.  `frees`
/// counts how often the engine was released.
#[verifier::ext_equal]
pub struct SessionModel {
    pub started: bool,
    pub shutdown_requested: bool,
    pub disconnect_requested: bool,
    pub write_closed: bool,
    pub terminated: bool,
    pub frees: nat,
    pub arrived: Seq<u8>,
    pub fed: Seq<u8>,
    pub queued: Seq<u8>,
    pub wired: Seq<u8>,
}

/// One occurrence in a session's life, as the event loop sees it.
pub enum SessionEvent {
    /// The engine was started.
    StartCalled,
    /// A read returned these bytes (more than zero of them).
    DataArrived(Seq<u8>),
    /// A read returned zero bytes: the peer closed its write side.
    EofSeen,
    /// A read failed.
    ReadFailed,
    /// The writer task took every queued byte and put it on the wire.
    Drained,
    /// A tick was delivered to the engine and its handler returned.
    TickEnded,
    /// The engine submitted these bytes for sending.
    SendIssued(Seq<u8>),
    /// A write against the stream failed.
    WriteFailed,
    /// The engine asked to close after flushing.
    DisconnectAsked,
    /// The engine asked to stop accepting input, then close after flushing.
    ShutdownAsked,
}

/// Well-formedness: the engine is released exactly when the loop has
/// terminated, and a closed write half has nothing left queued behind it.
pub open spec fn session_wf(s: SessionModel) -> bool {
    &&& s.frees == if s.terminated {
        1nat
    } else {
        0nat
    }
    &&& s.write_closed ==> s.queued.len() == 0
}

/// Every byte submitted for sending, in submission order: first what already
/// reached the wire, then what still waits in the queue.
pub open spec fn out_stream(s: SessionModel) -> Seq<u8> {
    s.wired + s.queued
}

/// The transition relation of the session loop.  A terminated session
/// processes nothing further.
pub open spec fn session_step(s: SessionModel, e: SessionEvent) -> SessionModel {
    if s.terminated {
        s
    } else {
        match e {
            SessionEvent::StartCalled => SessionModel { started: true, ..s },
            SessionEvent::DataArrived(b) => if s.shutdown_requested {
                SessionModel { arrived: s.arrived + b, ..s }
            } else {
                SessionModel { arrived: s.arrived + b, fed: s.fed + b, ..s }
            },
            SessionEvent::EofSeen => SessionModel {
                terminated: true,
                frees: s.frees + 1,
                ..s
            },
            SessionEvent::ReadFailed => SessionModel {
                terminated: true,
                frees: s.frees + 1,
                ..s
            },
            SessionEvent::Drained => SessionModel {
                wired: s.wired + s.queued,
                queued: Seq::empty(),
                ..s
            },
            SessionEvent::TickEnded => if s.disconnect_requested && !s.write_closed {
                SessionModel {
                    wired: s.wired + s.queued,
                    queued: Seq::empty(),
                    write_closed: true,
                    ..s
                }
            } else {
                s
            },
            SessionEvent::SendIssued(b) => if s.write_closed {
                SessionModel { disconnect_requested: true, ..s }
            } else {
                SessionModel { queued: s.queued + b, ..s }
            },
            SessionEvent::WriteFailed => SessionModel { disconnect_requested: true, ..s },
            SessionEvent::DisconnectAsked => SessionModel { disconnect_requested: true, ..s },
            SessionEvent::ShutdownAsked => SessionModel { shutdown_requested: true, ..s },
        }
    }
}

/// Folds a whole sequence of events over the transition relation.
pub open spec fn session_run(s: SessionModel, es: Seq<SessionEvent>) -> SessionModel
    decreases es.len(),
{
    if es.len() == 0 {
        s
    } else {
        session_run(session_step(s, es[0]), es.drop_first())
    }
}

/// The concatenation of a sequence of byte chunks.
pub open spec fn concat_chunks(chunks: Seq<Seq<u8>>) -> Seq<u8>
    decreases chunks.len(),
{
    if chunks.len() == 0 {
        Seq::empty()
    } else {
        chunks[0] + concat_chunks(chunks.drop_first())
    }
}

/// Delivers a sequence of reads to the session, one chunk per read event.
pub open spec fn deliver_chunks(s: SessionModel, chunks: Seq<Seq<u8>>) -> SessionModel
    decreases chunks.len(),
{
    if chunks.len() == 0 {
        s
    } else {
        deliver_chunks(session_step(s, SessionEvent::DataArrived(chunks[0])), chunks.drop_first())
    }
}

/// Each event preserves well-formedness.
pub proof fn lemma_step_preserves_wf(s: SessionModel, e: SessionEvent)
    requires
        session_wf(s),
    ensures
        session_wf(session_step(s, e)),
{
}

/// A terminated session ignores every further event.
pub proof fn lemma_terminated_stable(s: SessionModel, es: Seq<SessionEvent>)
    requires
        s.terminated,
    ensures
        session_run(s, es) == s,
    decreases es.len(),
{
    if es.len() > 0 {
        lemma_terminated_stable(s, es.drop_first());
    }
}

/// Chunking is transparent: a live session that was not asked to shut down
/// reaches the same state whether N bytes arrive as any sequence of reads or
/// as one single read of all N bytes, so the engine is fed the same bytes in
/// the same order either way.
pub proof fn lemma_chunking_transparent(s: SessionModel, chunks: Seq<Seq<u8>>)
    requires
        !s.terminated,
        !s.shutdown_requested,
    ensures
        deliver_chunks(s, chunks) == session_step(
            s,
            SessionEvent::DataArrived(concat_chunks(chunks)),
        ),
        deliver_chunks(s, chunks).fed == s.fed + concat_chunks(chunks),
    decreases chunks.len(),
{
    if chunks.len() == 0 {
        assert(deliver_chunks(s, chunks) =~= session_step(
            s,
            SessionEvent::DataArrived(concat_chunks(chunks)),
        ));
    } else {
        let s1 = session_step(s, SessionEvent::DataArrived(chunks[0]));
        lemma_chunking_transparent(s1, chunks.drop_first());
        assert(deliver_chunks(s, chunks) =~= session_step(
            s,
            SessionEvent::DataArrived(concat_chunks(chunks)),
        ));
    }
}

/// Once `shutdown-requested` is set, no event ever extends the bytes fed to
/// the engine, while draining still moves every queued outbound byte to the
/// wire: input stops, pending output completes.
pub proof fn lemma_shutdown_blocks_feed(s: SessionModel, es: Seq<SessionEvent>)
    requires
        s.shutdown_requested,
    ensures
        session_run(s, es).fed == s.fed,
        !s.terminated ==> session_step(s, SessionEvent::Drained).wired == s.wired + s.queued,
    decreases es.len(),
{
    if es.len() > 0 {
        lemma_shutdown_blocks_feed(session_step(s, es[0]), es.drop_first());
    }
}

/// Once `disconnect-requested` is set, the write half is closed at the next
/// tick boundary; the closed state is permanent; and a send against a closed
/// write half delivers nothing and marks the session for disconnect.
pub proof fn lemma_disconnect_closes_write(s: SessionModel, e: SessionEvent, b: Seq<u8>)
    ensures
        !s.terminated && s.disconnect_requested ==> session_step(
            s,
            SessionEvent::TickEnded,
        ).write_closed,
        s.write_closed ==> session_step(s, e).write_closed,
        !s.terminated && s.write_closed ==> {
            let t = session_step(s, SessionEvent::SendIssued(b));
            &&& t.queued == s.queued
            &&& t.wired == s.wired
            &&& t.disconnect_requested
        },
{
}

/// A read that observes EOF terminates the session and releases the engine
/// exactly once, whatever the flags say and whatever happens afterwards.
pub proof fn lemma_eof_frees_engine_once(s: SessionModel, es: Seq<SessionEvent>)
    requires
        session_wf(s),
        !s.terminated,
    ensures
        session_step(s, SessionEvent::EofSeen).terminated,
        session_step(s, SessionEvent::EofSeen).frees == 1,
        session_run(session_step(s, SessionEvent::EofSeen), es).frees == 1,
{
    lemma_terminated_stable(session_step(s, SessionEvent::EofSeen), es);
}

/// Two sends submitted back to back land on the outbound stream in
/// submission order: the per-session queue serializes them.
pub proof fn lemma_sends_preserve_order(s: SessionModel, a: Seq<u8>, b: Seq<u8>)
    requires
        !s.terminated,
        !s.write_closed,
    ensures
        out_stream(session_step(session_step(s, SessionEvent::SendIssued(a)),
            SessionEvent::SendIssued(b))) == out_stream(s) + a + b,
{
    assert(out_stream(session_step(session_step(s, SessionEvent::SendIssued(a)),
        SessionEvent::SendIssued(b))) =~= out_stream(s) + a + b);
}

/// No event reorders or drops outbound bytes: the stream of submitted bytes
/// only ever grows at its end.
pub proof fn lemma_out_stream_append_only(s: SessionModel, e: SessionEvent)
    requires
        session_wf(s),
    ensures
        exists|t: Seq<u8>| out_stream(session_step(s, e)) == out_stream(s) + t,
{
    let s2 = session_step(s, e);
    if s.terminated {
        assert(out_stream(s2) =~= out_stream(s) + Seq::<u8>::empty());
    } else {
        match e {
            SessionEvent::SendIssued(b) => {
                if s.write_closed {
                    assert(out_stream(s2) =~= out_stream(s) + Seq::<u8>::empty());
                } else {
                    assert(out_stream(s2) =~= out_stream(s) + b);
                }
            },
            SessionEvent::Drained => {
                assert(out_stream(s2) =~= out_stream(s) + Seq::<u8>::empty());
            },
            SessionEvent::TickEnded => {
                assert(out_stream(s2) =~= out_stream(s) + Seq::<u8>::empty());
            },
            _ => {
                assert(out_stream(s2) =~= out_stream(s) + Seq::<u8>::empty());
            },
        }
    }
}

/// One accepted connection: the executable session state that the event loop
/// and the engine callbacks operate on.
///
/// The remote address is carried as plain host text and port.  The byte
/// histories are ghost; the outbound queue is real, so the loop's writer can
/// drain it.
pub struct AuthSession {
    ip: String,
    port: u16,
    started: bool,
    shutdown_requested: bool,
    disconnect_requested: bool,
    write_closed: bool,
    terminated: bool,
    frees: u64,
    queued: Vec<u8>,
    arrived: Ghost<Seq<u8>>,
    fed: Ghost<Seq<u8>>,
    wired: Ghost<Seq<u8>>,
}

impl View for AuthSession {
    type V = SessionModel;

    closed spec fn view(&self) -> SessionModel {
        SessionModel {
            started: self.started,
            shutdown_requested: self.shutdown_requested,
            disconnect_requested: self.disconnect_requested,
            write_closed: self.write_closed,
            terminated: self.terminated,
            frees: self.frees as nat,
            arrived: self.arrived@,
            fed: self.fed@,
            queued: self.queued@,
            wired: self.wired@,
        }
    }
}

impl AuthSession {
    /// Constructs the session for a freshly accepted connection; the protocol
    /// engine is created together with it and nothing has happened yet.
    pub fn new(ip: String, port: u16) -> (s: Self)
        ensures
            session_wf(s@),
            s@ == (SessionModel {
                started: false,
                shutdown_requested: false,
                disconnect_requested: false,
                write_closed: false,
                terminated: false,
                frees: 0,
                arrived: Seq::empty(),
                fed: Seq::empty(),
                queued: Seq::empty(),
                wired: Seq::empty(),
            }),
            s.ip_view() == ip@,
            s.port_view() == port,
    {
        let s = AuthSession {
            ip,
            port,
            started: false,
            shutdown_requested: false,
            disconnect_requested: false,
            write_closed: false,
            terminated: false,
            frees: 0,
            queued: Vec::new(),
            arrived: Ghost(Seq::empty()),
            fed: Ghost(Seq::empty()),
            wired: Ghost(Seq::empty()),
        };
        proof {
            assert(s@ =~= (SessionModel {
                started: false,
                shutdown_requested: false,
                disconnect_requested: false,
                write_closed: false,
                terminated: false,
                frees: 0,
                arrived: Seq::empty(),
                fed: Seq::empty(),
                queued: Seq::empty(),
                wired: Seq::empty(),
            }));
        }
        s
    }

    /// The remote host text, as the engine reads it back.
    pub closed spec fn ip_view(&self) -> Seq<char> {
        self.ip@
    }

    /// The remote port, as the engine reads it back.
    pub closed spec fn port_view(&self) -> u16 {
        self.port
    }

    /// The remote address of this connection.
    pub fn get_ip_address(&self) -> (r: &String)
        ensures
            r@ == self.ip_view(),
    {
        &self.ip
    }

    /// The remote port of this connection.
    pub fn get_port(&self) -> (r: u16)
        ensures
            r == self.port_view(),
    {
        self.port
    }

    /// Marks the moment the engine's start entry point is invoked; it happens
    /// exactly once, before the event loop runs.
    pub fn start(&mut self)
        requires
            session_wf(old(self)@),
            !old(self)@.started,
            !old(self)@.terminated,
        ensures
            session_wf(final(self)@),
            final(self)@ == session_step(old(self)@, SessionEvent::StartCalled),
    {
        self.started = true;
        proof {
            assert(self@ =~= session_step(old(self)@, SessionEvent::StartCalled));
        }
    }

    /// A read delivered bytes.  If shutdown was requested the bytes are
    /// drained and discarded; otherwise they are returned so the caller can
    /// hand exactly these bytes to the engine's feed entry point before the
    /// loop waits again.
    pub fn on_read_data(&mut self, data: Vec<u8>) -> (feed: Option<Vec<u8>>)
        requires
            session_wf(old(self)@),
        ensures
            session_wf(final(self)@),
            final(self)@ == session_step(old(self)@, SessionEvent::DataArrived(data@)),
            feed == if old(self)@.terminated || old(self)@.shutdown_requested {
                Option::<Vec<u8>>::None
            } else {
                Option::Some(data)
            },
    {
        if self.terminated {
            return None;
        }
        proof {
            self.arrived@ = self.arrived@ + data@;
        }
        if self.shutdown_requested {
            proof {
                assert(self@ =~= session_step(old(self)@, SessionEvent::DataArrived(data@)));
            }
            None
        } else {
            proof {
                self.fed@ = self.fed@ + data@;
                assert(self@ =~= session_step(old(self)@, SessionEvent::DataArrived(data@)));
            }
            Some(data)
        }
    }

    /// A read returned zero bytes: the peer closed its side, the loop
    /// terminates and the engine is released, exactly once.
    pub fn on_read_eof(&mut self)
        requires
            session_wf(old(self)@),
        ensures
            session_wf(final(self)@),
            final(self)@ == session_step(old(self)@, SessionEvent::EofSeen),
            final(self)@.terminated,
    {
        if !self.terminated {
            self.terminated = true;
            self.frees = self.frees + 1;
        }
        proof {
            assert(self@ =~= session_step(old(self)@, SessionEvent::EofSeen));
        }
    }

    /// A read failed: fatal to this session only; the loop terminates and
    /// the engine is released, exactly once.
    pub fn on_read_error(&mut self)
        requires
            session_wf(old(self)@),
        ensures
            session_wf(final(self)@),
            final(self)@ == session_step(old(self)@, SessionEvent::ReadFailed),
    {
        if !self.terminated {
            self.terminated = true;
            self.frees = self.frees + 1;
        }
        proof {
            assert(self@ =~= session_step(old(self)@, SessionEvent::ReadFailed));
        }
    }

    /// The tick handler of the engine returned.  If disconnect was requested
    /// and the write half is still open, every queued byte is handed back for
    /// one final write and the write half closes; the caller must put the
    /// returned bytes on the wire before closing it.
    pub fn after_tick(&mut self) -> (flush: Option<Vec<u8>>)
        requires
            session_wf(old(self)@),
        ensures
            session_wf(final(self)@),
            final(self)@ == session_step(old(self)@, SessionEvent::TickEnded),
            flush is Some <==> !old(self)@.terminated && old(self)@.disconnect_requested && !old(
                self,
            )@.write_closed,
            flush matches Option::Some(v) ==> v@ == old(self)@.queued,
    {
        if !self.terminated && self.disconnect_requested && !self.write_closed {
            let mut out: Vec<u8> = Vec::new();
            core::mem::swap(&mut out, &mut self.queued);
            proof {
                self.wired@ = self.wired@ + out@;
            }
            self.write_closed = true;
            proof {
                assert(self@ =~= session_step(old(self)@, SessionEvent::TickEnded));
            }
            Some(out)
        } else {
            proof {
                assert(self@ =~= session_step(old(self)@, SessionEvent::TickEnded));
            }
            None
        }
    }

    /// The writer takes every queued byte, in submission order, to put it on
    /// the wire.
    pub fn take_outbound(&mut self) -> (out: Vec<u8>)
        requires
            session_wf(old(self)@),
        ensures
            session_wf(final(self)@),
            final(self)@ == session_step(old(self)@, SessionEvent::Drained),
            out@ == if old(self)@.terminated {
                Seq::<u8>::empty()
            } else {
                old(self)@.queued
            },
    {
        if self.terminated {
            proof {
                assert(self@ =~= session_step(old(self)@, SessionEvent::Drained));
            }
            Vec::new()
        } else {
            let mut out: Vec<u8> = Vec::new();
            core::mem::swap(&mut out, &mut self.queued);
            proof {
                self.wired@ = self.wired@ + out@;
                assert(self@ =~= session_step(old(self)@, SessionEvent::Drained));
            }
            out
        }
    }

    /// The engine submits bytes for sending.  They are queued in submission
    /// order; against a closed write half nothing is accepted and the session
    /// is marked for disconnect.
    pub fn send(&mut self, data: &[u8]) -> (accepted: bool)
        requires
            session_wf(old(self)@),
        ensures
            session_wf(final(self)@),
            final(self)@ == session_step(old(self)@, SessionEvent::SendIssued(data@)),
            accepted == (!old(self)@.terminated && !old(self)@.write_closed),
    {
        if self.terminated {
            proof {
                assert(self@ =~= session_step(old(self)@, SessionEvent::SendIssued(data@)));
            }
            false
        } else if self.write_closed {
            self.disconnect_requested = true;
            proof {
                assert(self@ =~= session_step(old(self)@, SessionEvent::SendIssued(data@)));
            }
            false
        } else {
            let mut i: usize = 0;
            while i < data.len()
                invariant
                    i <= data@.len(),
                    self.queued@ == old(self).queued@ + data@.subrange(0, i as int),
                    self.ip == old(self).ip,
                    self.port == old(self).port,
                    self.started == old(self).started,
                    self.shutdown_requested == old(self).shutdown_requested,
                    self.disconnect_requested == old(self).disconnect_requested,
                    self.write_closed == old(self).write_closed,
                    self.terminated == old(self).terminated,
                    self.frees == old(self).frees,
                    self.arrived == old(self).arrived,
                    self.fed == old(self).fed,
                    self.wired == old(self).wired,
                decreases data@.len() - i,
            {
                self.queued.push(data[i]);
                i = i + 1;
            }
            proof {
                assert(self.queued@ =~= old(self).queued@ + data@);
                assert(self@ =~= session_step(old(self)@, SessionEvent::SendIssued(data@)));
            }
            true
        }
    }

    /// A dispatched write failed: non-fatal, the session is marked for
    /// disconnect and the next tick picks it up.
    pub fn on_write_error(&mut self)
        requires
            session_wf(old(self)@),
        ensures
            session_wf(final(self)@),
            final(self)@ == session_step(old(self)@, SessionEvent::WriteFailed),
    {
        if !self.terminated {
            self.disconnect_requested = true;
        }
        proof {
            assert(self@ =~= session_step(old(self)@, SessionEvent::WriteFailed));
        }
    }

    /// The engine asks to close after flushing: sets the monotonic flag.
    pub fn disconnect(&mut self)
        requires
            session_wf(old(self)@),
        ensures
            session_wf(final(self)@),
            final(self)@ == session_step(old(self)@, SessionEvent::DisconnectAsked),
    {
        if !self.terminated {
            self.disconnect_requested = true;
        }
        proof {
            assert(self@ =~= session_step(old(self)@, SessionEvent::DisconnectAsked));
        }
    }

    /// The engine asks to stop accepting input, then close after flushing:
    /// sets the other monotonic flag.
    pub fn shutdown(&mut self)
        requires
            session_wf(old(self)@),
        ensures
            session_wf(final(self)@),
            final(self)@ == session_step(old(self)@, SessionEvent::ShutdownAsked),
    {
        if !self.terminated {
            self.shutdown_requested = true;
        }
        proof {
            assert(self@ =~= session_step(old(self)@, SessionEvent::ShutdownAsked));
        }
    }

    /// Whether the loop has terminated.
    pub fn is_terminated(&self) -> (r: bool)
        ensures
            r == self@.terminated,
    {
        self.terminated
    }

    /// Whether the write half has been closed.
    pub fn is_write_closed(&self) -> (r: bool)
        ensures
            r == self@.write_closed,
    {
        self.write_closed
    }

    /// Whether the engine asked for a disconnect.
    pub fn is_disconnect_requested(&self) -> (r: bool)
        ensures
            r == self@.disconnect_requested,
    {
        self.disconnect_requested
    }

    /// Whether the engine asked for a shutdown.
    pub fn is_shutdown_requested(&self) -> (r: bool)
        ensures
            r == self@.shutdown_requested,
    {
        self.shutdown_requested
    }

    /// How often the engine has been released.
    pub fn free_count(&self) -> (r: u64)
        ensures
            r as nat == self@.frees,
    {
        self.frees
    }
}

impl Session for AuthSession {
    open spec fn sess_wf(&self) -> bool {
        session_wf(self@)
    }

    /// Encodes the record and submits its wire bytes for sending, as one
    /// send.
    fn send_packet<T: WoWPacket>(&mut self, pkt: &T) -> (accepted: bool)
        ensures
            final(self)@ == session_step(old(self)@, SessionEvent::SendIssued(pkt.wire())),
            accepted == (!old(self)@.terminated && !old(self)@.write_closed),
    {
        let bytes = pkt.encode_to_vec();
        self.send(bytes.as_slice())
    }
}

} // verus!
