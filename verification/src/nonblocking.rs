//! Non-blocking wrapper: a synchronous client plus a queue of pending
//! requests, driven by an external readiness-notification loop.
//!
//! Every operation does at most one unit of I/O work and returns at once;
//! `NotReady` reports that the transport cannot make progress now and the
//! caller should retry after the next readiness notification. Transmission
//! drains the queue oldest-first, matching the protocol's
//! one-outstanding-request discipline; [`AsyncClient::pop`] and
//! [`AsyncClient::last`] inspect or cancel the *most recently* queued
//! request and are distinct from the transmission order.

use vstd::prelude::*;

use crate::client::{Client, Poll, Source, Token};
use crate::protocol::{encode_request, req_wf, scan, Request, RequestView, Response, ScanOutcome};
use crate::types::{ClientResult, ErrorView};

verus! {

/// Initial capacity of the request queue.
pub const INITIAL_REQUEST_QUEUE_CAPACITY: usize = 4;

/// Non-blocking client: a synchronous client and a queue of requests not yet
/// transmitted.
pub struct AsyncClient<S: Source> {
    /// The synchronous client that owns the transport.
    pub client: Client<S>,
    /// Requests not yet handed to the transport, oldest first.
    pub requests: Vec<Request>,
}

impl<S: Source> AsyncClient<S> {
    /// The queued requests, oldest first.
    pub open spec fn queue(&self) -> Seq<RequestView> {
        self.requests.deep_view()
    }

    /// Everything written to the transport, oldest chunk first.
    pub open spec fn sent(&self) -> Seq<Seq<char>> {
        self.client.sent()
    }

    /// The stream of lines not yet consumed by a decode.
    pub open spec fn stream(&self) -> Seq<Seq<char>> {
        self.client.stream()
    }

    /// The lines already read and buffered, ahead of anything the transport
    /// still holds.
    pub open spec fn buffered(&self) -> Seq<Seq<char>> {
        self.client.buffered()
    }

    /// Every queued request is well formed.
    pub open spec fn wf(&self) -> bool {
        forall|i: int| 0 <= i < self.queue().len() ==> req_wf(#[trigger] self.queue()[i])
    }

    /// New non-blocking client wrapping a synchronous one; the queue starts
    /// empty.
    pub fn new(client: Client<S>) -> (r: Self)
        ensures
            r.queue() == Seq::<RequestView>::empty(),
            r.sent() == client.sent(),
            r.stream() == client.stream(),
            r.wf(),
    {
        let r = Self { client, requests: Vec::with_capacity(INITIAL_REQUEST_QUEUE_CAPACITY) };
        proof {
            assert(r.queue() =~= Seq::<RequestView>::empty());
        }
        r
    }

    /// Hand the transport's readiness sources to an external notifier.
    pub fn register(&mut self, poll: &Poll, input_token: Token, output_token: Token) -> (r: Result<
        (),
        std::io::Error,
    >)
        ensures
            final(self).queue() == old(self).queue(),
            final(self).sent() == old(self).sent(),
            final(self).stream() == old(self).stream(),
    {
        self.client.register(poll, input_token, output_token)
    }

    /// Append a request to the queue.
    pub fn push(&mut self, request: Request)
        requires
            req_wf(request@),
        ensures
            final(self).queue() == old(self).queue().push(request@),
            final(self).sent() == old(self).sent(),
            final(self).stream() == old(self).stream(),
            old(self).wf() ==> final(self).wf(),
    {
        let ghost before = self.requests.deep_view();
        self.requests.push(request);
        proof {
            assert(self.requests.deep_view() =~= before.push(request@));
        }
    }

    /// Remove and return the most recently queued request, if any. This is a
    /// cancellation aid; transmission drains the other end of the queue.
    pub fn pop(&mut self) -> (r: Option<Request>)
        ensures
            final(self).sent() == old(self).sent(),
            final(self).stream() == old(self).stream(),
            old(self).queue().len() == 0 ==> r is None && final(self).queue() == old(self).queue(),
            old(self).queue().len() > 0 ==> (r matches Some(req) && req@ == old(
                self,
            ).queue().last() && final(self).queue() == old(self).queue().drop_last()),
    {
        let ghost before = self.requests.deep_view();
        let r = self.requests.pop();
        proof {
            if before.len() > 0 {
                assert(self.requests.deep_view() =~= before.drop_last());
            }
        }
        r
    }

    /// The most recently queued request, if any, left in place.
    pub fn last(&self) -> (r: Option<&Request>)
        ensures
            self.queue().len() == 0 ==> r is None,
            self.queue().len() > 0 ==> (r matches Some(req) && req@ == self.queue().last()),
    {
        if self.requests.len() == 0 {
            None
        } else {
            Some(&self.requests[self.requests.len() - 1])
        }
    }

    /// Whether a request is waiting to be transmitted.
    pub fn has_next(&self) -> (r: bool)
        ensures
            r == (self.queue().len() != 0),
    {
        self.requests.len() != 0
    }

    /// Transmit the oldest queued request, removing it from the queue only
    /// once the synchronous client accepted it whole. An empty queue is a
    /// no-op success. `NotReady` reports a transport that would block; the
    /// request stays queued and is re-sent in full on the next attempt.
    pub fn send_next(&mut self) -> (r: ClientResult<()>)
        requires
            old(self).wf(),
        ensures
            final(self).stream() == old(self).stream(),
            final(self).wf(),
            old(self).queue().len() == 0 ==> r is Ok,
            match r {
                Ok(_) => (old(self).queue().len() == 0 ==> final(self).queue() == old(self).queue()
                    && final(self).sent() == old(self).sent()) && (old(self).queue().len() > 0
                    ==> final(self).queue() == old(self).queue().drop_first() && final(self).sent()
                    == old(self).sent().push(encode_request(old(self).queue()[0]))),
                Err(e) => final(self).queue() == old(self).queue() && final(self).sent() == old(
                    self,
                ).sent() && (e@ is NotReady || e@ is Io),
            },
    {
        if self.requests.len() == 0 {
            return Ok(());
        }
        proof {
            assert(req_wf(self.queue()[0]));
            assert(self.queue()[0] == self.requests@[0]@);
        }
        match self.client.send(&self.requests[0]) {
            Ok(_) => {
                let ghost before = self.requests.deep_view();
                let _ = self.requests.remove(0);
                proof {
                    assert(self.requests.deep_view() =~= before.drop_first());
                }
                Ok(())
            },
            Err(e) => Err(e),
        }
    }

    /// Receive one response: exactly one decode cycle, as
    /// [`Client::receive`] specifies it.
    pub fn receive_next(&mut self) -> (r: ClientResult<Response>)
        ensures
            final(self).queue() == old(self).queue(),
            final(self).sent() == old(self).sent(),
            scan(old(self).buffered()) is Done ==> r is Ok,
            (scan(old(self).buffered()) matches ScanOutcome::Fail(ev, _) ==> (r matches Err(e)
                && e@ == ev)),
            match r {
                Ok(resp) => (scan(old(self).stream()) matches ScanOutcome::Done(v, n) && v == resp@
                    && final(self).stream() == old(self).stream().skip(n)),
                Err(e) => match e@ {
                    ErrorView::TruncatedMessage => scan(old(self).stream()) is NeedMore
                        && final(self).stream() == Seq::<Seq<char>>::empty(),
                    ErrorView::NotReady => final(self).stream() == old(self).stream(),
                    ErrorView::Io => final(self).stream() == old(self).stream(),
                    _ => (scan(old(self).stream()) matches ScanOutcome::Fail(ev, n) && ev == e@
                        && final(self).stream() == old(self).stream().skip(n)),
                },
            },
    {
        self.client.receive()
    }
}

/// The transport log after draining a whole queue, one successful
/// transmission per element: each step appends the front request's encoding
/// and removes it from the queue, exactly as one successful
/// [`AsyncClient::send_next`] call does.
pub open spec fn drained(sent: Seq<Seq<char>>, queue: Seq<RequestView>) -> Seq<Seq<char>>
    decreases queue.len(),
{
    if queue.len() == 0 {
        sent
    } else {
        drained(sent.push(encode_request(queue[0])), queue.drop_first())
    }
}

/// The encodings of the queued requests, in queue order.
pub open spec fn encodings(queue: Seq<RequestView>) -> Seq<Seq<char>> {
    Seq::new(queue.len(), |i: int| encode_request(queue[i]))
}

/// Draining the queue front-to-back appends the requests' encodings to the
/// transport log in the order they were pushed: transmission is FIFO.
pub proof fn lemma_fifo_drain(sent: Seq<Seq<char>>, queue: Seq<RequestView>)
    ensures
        drained(sent, queue) == sent + encodings(queue),
    decreases queue.len(),
{
    if queue.len() == 0 {
        assert(drained(sent, queue) =~= sent + encodings(queue));
    } else {
        lemma_fifo_drain(sent.push(encode_request(queue[0])), queue.drop_first());
        assert(sent.push(encode_request(queue[0])) + encodings(queue.drop_first()) =~= sent
            + encodings(queue));
    }
}

} // verus!
