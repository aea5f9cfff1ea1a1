//! Registry of the streaming subscriptions: the streaming client's
//! presence and the current handle of each stream kind.
use vstd::prelude::*;
use crate::pool::ConnectionPool;
use crate::signals::StreamResult;

verus! {

/// The two telemetry streams.
#[derive(PartialEq, Eq, Structural, Clone, Copy)]
pub enum StreamKind {
    Traffic,
    Logs,
}

impl StreamKind {
    /// Endpoint path of the stream.
    pub fn path(&self) -> (r: &'static str)
        ensures
            r@ == match *self {
                StreamKind::Traffic => "/traffic"@,
                StreamKind::Logs => "/logs?level=info"@,
            },
    {
        match self {
            StreamKind::Traffic => "/traffic",
            StreamKind::Logs => "/logs?level=info",
        }
    }
}

/// Streaming client presence and one current handle per stream kind.
pub struct StreamRegistry {
    pub client_ready: bool,
    pub traffic: Option<u32>,
    pub logs: Option<u32>,
}

impl StreamRegistry {
    /// The handle tracked for `kind`.
    pub open spec fn current(&self, kind: StreamKind) -> Option<u32> {
        match kind {
            StreamKind::Traffic => self.traffic,
            StreamKind::Logs => self.logs,
        }
    }

    /// No client and no tracked handle.
    pub fn new() -> (r: StreamRegistry)
        ensures
            !r.client_ready,
            r.traffic is None,
            r.logs is None,
    {
        StreamRegistry { client_ready: false, traffic: None, logs: None }
    }

    /// Marks the streaming client as created; returns whether it had to be
    /// created now (it is created once, on the first start).
    pub fn ensure_client_initialized(&mut self) -> (created: bool)
        ensures
            created == !old(self).client_ready,
            final(self).client_ready,
            final(self).traffic == old(self).traffic,
            final(self).logs == old(self).logs,
    {
        if self.client_ready {
            false
        } else {
            self.client_ready = true;
            true
        }
    }

    /// Records `handle` as the current handle of `kind` and returns the one
    /// it replaces. The replaced subscription is not closed here: it stays
    /// open until the whole client is torn down.
    pub fn record_started(&mut self, kind: StreamKind, handle: u32) -> (replaced: Option<u32>)
        ensures
            replaced == old(self).current(kind),
            final(self).current(kind) == Some(handle),
            kind != StreamKind::Traffic ==> final(self).traffic == old(self).traffic,
            kind != StreamKind::Logs ==> final(self).logs == old(self).logs,
            final(self).client_ready == old(self).client_ready,
    {
        match kind {
            StreamKind::Traffic => {
                let prev = self.traffic;
                self.traffic = Some(handle);
                prev
            },
            StreamKind::Logs => {
                let prev = self.logs;
                self.logs = Some(handle);
                prev
            },
        }
    }

    /// Outcome of opening the connection of a start of `kind`: a handle is
    /// recorded and reported as success, and the handle it replaces (left
    /// open, as `record_started` says) is handed back; a failure leaves the
    /// registry as it was and is reported with its message.
    pub fn finish_start(&mut self, kind: StreamKind, opened: Result<u32, String>) -> (r: (StreamResult, Option<u32>))
        ensures
            match opened {
                Ok(h) => {
                    &&& r.0.success
                    &&& r.0.error_message is None
                    &&& r.1 == old(self).current(kind)
                    &&& final(self).current(kind) == Some(h)
                    &&& kind != StreamKind::Traffic ==> final(self).traffic == old(self).traffic
                    &&& kind != StreamKind::Logs ==> final(self).logs == old(self).logs
                    &&& final(self).client_ready == old(self).client_ready
                },
                Err(e) => {
                    &&& !r.0.success
                    &&& r.0.error_message == Some(e)
                    &&& r.1 is None
                    &&& *final(self) == *old(self)
                },
            },
    {
        match opened {
            Ok(h) => {
                let replaced = self.record_started(kind, h);
                (StreamResult::ok(), replaced)
            },
            Err(e) => (StreamResult::failed(e), None),
        }
    }

    /// Takes the current handle of `kind`; returns the handle the client
    /// must close, which is none when nothing was tracked or no client
    /// exists. Stopping always reports success.
    pub fn stop(&mut self, kind: StreamKind) -> (to_close: Option<u32>)
        ensures
            final(self).current(kind) is None,
            kind != StreamKind::Traffic ==> final(self).traffic == old(self).traffic,
            kind != StreamKind::Logs ==> final(self).logs == old(self).logs,
            final(self).client_ready == old(self).client_ready,
            to_close == (if old(self).client_ready { old(self).current(kind) } else { None }),
    {
        let taken = match kind {
            StreamKind::Traffic => self.traffic.take(),
            StreamKind::Logs => self.logs.take(),
        };
        if self.client_ready {
            taken
        } else {
            None
        }
    }

    /// Drops the streaming client; returns whether there was one, in which
    /// case every live handle must be disconnected.
    pub fn cleanup_client(&mut self) -> (disconnect_all: bool)
        ensures
            disconnect_all == old(self).client_ready,
            !final(self).client_ready,
            final(self).traffic == old(self).traffic,
            final(self).logs == old(self).logs,
    {
        let had = self.client_ready;
        self.client_ready = false;
        had
    }
}

/// Coordinated teardown when the proxy-core stops: drops the streaming
/// client and flushes the connection pool. Returns whether a client existed,
/// in which case all its handles must be disconnected.
pub fn cleanup_all_network_resources<C>(streams: &mut StreamRegistry, pool: &mut ConnectionPool<C>) -> (disconnect_all: bool)
    ensures
        disconnect_all == old(streams).client_ready,
        !final(streams).client_ready,
        final(streams).traffic == old(streams).traffic,
        final(streams).logs == old(streams).logs,
        final(pool)@.len() == 0,
        final(pool).wf(),
{
    let had = streams.cleanup_client();
    pool.clear();
    had
}

} // verus!
