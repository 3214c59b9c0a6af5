//! The synchronous client: owns one transport, sends one request at a time,
//! and decodes one full response per receive call.
//!
//! The transport is any type implementing [`Source`]: a bidirectional byte
//! stream read line by line, able to hand its readiness sources to an
//! external notifier. [`MemoryStream`] is an in-process implementation used
//! to exercise the protocol logic without a live daemon.
//!
//! Responses are matched to requests purely by send/receive ordering: the
//! wire format has no correlation id, so callers must not send a second
//! request while the response to the first is still outstanding.

use vstd::prelude::*;

use crate::protocol::{
    encode_request, encode_request_text, parse_response, req_wf, scan, ParseOutcome, Request,
    Response, ScanOutcome,
};
use crate::protocol::{lemma_scan_fail_kinds, lemma_scan_head_extend};
use crate::text::{strip_line, strip_line_end};
use crate::types::{ClientError, ClientResult, ErrorView};

verus! {

/// Opaque handle of the external readiness notifier a transport registers
/// with. The client only passes it through; it never polls itself.
#[derive(Debug)]
pub struct Poll {}

/// Identifier under which a readiness source is registered.
#[derive(Debug, Clone, Copy, PartialEq, Eq)]
pub struct Token(pub usize);

/// The lines of a transport, each stripped of its terminator.
pub open spec fn stripped_lines(lines: Seq<Seq<char>>) -> Seq<Seq<char>> {
    Seq::new(lines.len(), |i: int| strip_line(lines[i]))
}

/// Transport capability the client needs: a writable chunk sink, a readable
/// line source, and registration of both sides with an external readiness
/// notifier.
///
/// `sent` models everything written so far, oldest chunk first; `incoming`
/// models the lines still to be read. A write either takes the whole chunk
/// or nothing: a partial write is reported as a failure and the chunk is
/// re-sent in full on the next attempt.
pub trait Source: Sized {
    /// Chunks written so far, oldest first. Implementations override this
    /// model; the default leaves it unspecified.
    open spec fn sent(&self) -> Seq<Seq<char>> {
        vstd::pervasive::arbitrary()
    }

    /// Lines still to be read, next first. Implementations override this
    /// model; the default leaves it unspecified.
    open spec fn incoming(&self) -> Seq<Seq<char>> {
        vstd::pervasive::arbitrary()
    }

    /// Write one chunk, whole or not at all.
    fn write_chunk(&mut self, chunk: &str) -> (r: Result<(), std::io::Error>)
        ensures
            final(self).incoming() == old(self).incoming(),
            match r {
                Ok(_) => final(self).sent() == old(self).sent().push(chunk@),
                Err(_) => final(self).sent() == old(self).sent(),
            },
    ;

    /// Read the next line; `None` reports end of stream.
    fn read_line(&mut self) -> (r: Result<Option<String>, std::io::Error>)
        ensures
            final(self).sent() == old(self).sent(),
            match r {
                Ok(opt) => match opt {
                    Some(l) => old(self).incoming().len() > 0 && l@ == old(self).incoming()[0]
                        && final(self).incoming() == old(self).incoming().drop_first(),
                    None => old(self).incoming().len() == 0 && final(self).incoming() == old(
                        self,
                    ).incoming(),
                },
                Err(_) => final(self).incoming() == old(self).incoming(),
            },
    ;

    /// Register the readable and writable sides with the notifier under the
    /// given identifiers.
    fn register(&mut self, poll: &Poll, input_token: Token, output_token: Token) -> (r: Result<
        (),
        std::io::Error,
    >)
        ensures
            final(self).sent() == old(self).sent(),
            final(self).incoming() == old(self).incoming(),
    ;
}

/// In-memory transport: serves a fixed script of lines and logs every chunk
/// written to it.
#[derive(Debug)]
pub struct MemoryStream {
    /// Lines still to be served, next first.
    pub incoming_lines: Vec<String>,
    /// Chunks written so far, oldest first.
    pub written: Vec<String>,
}

impl MemoryStream {
    /// New in-memory transport that will serve the given lines.
    pub fn new(lines: Vec<String>) -> (r: MemoryStream)
        ensures
            r.incoming() == lines.deep_view(),
            r.sent() == Seq::<Seq<char>>::empty(),
    {
        let r = MemoryStream { incoming_lines: lines, written: Vec::new() };
        proof {
            assert(r.written.deep_view() =~= Seq::<Seq<char>>::empty());
        }
        r
    }

    /// The chunks written so far, oldest first.
    pub fn sent_chunks(&self) -> (r: &Vec<String>)
        ensures
            r.deep_view() == self.sent(),
    {
        &self.written
    }
}

impl Source for MemoryStream {
    open spec fn sent(&self) -> Seq<Seq<char>> {
        self.written.deep_view()
    }

    open spec fn incoming(&self) -> Seq<Seq<char>> {
        self.incoming_lines.deep_view()
    }

    fn write_chunk(&mut self, chunk: &str) -> (r: Result<(), std::io::Error>) {
        let ghost before = self.written.deep_view();
        self.written.push(chunk.to_owned());
        proof {
            assert(self.written.deep_view() =~= before.push(chunk@));
        }
        Ok(())
    }

    fn read_line(&mut self) -> (r: Result<Option<String>, std::io::Error>) {
        if self.incoming_lines.len() == 0 {
            Ok(None)
        } else {
            let ghost before = self.incoming_lines.deep_view();
            let l = self.incoming_lines.remove(0);
            proof {
                assert(self.incoming_lines.deep_view() =~= before.drop_first());
            }
            Ok(Some(l))
        }
    }

    fn register(&mut self, _poll: &Poll, _input_token: Token, _output_token: Token) -> (r: Result<
        (),
        std::io::Error,
    >) {
        Ok(())
    }
}

/// Synchronous client over one exclusively owned transport.
pub struct Client<S: Source> {
    /// The transport.
    pub source: S,
    /// Lines read but not yet consumed by a completed decode.
    pub pending: Vec<String>,
}

impl<S: Source> Client<S> {
    /// Everything written to the transport, oldest chunk first.
    pub open spec fn sent(&self) -> Seq<Seq<char>> {
        self.source.sent()
    }

    /// The stream of lines not yet consumed by a decode: lines already
    /// buffered, then the transport's remaining lines, each stripped of its
    /// terminator.
    pub open spec fn stream(&self) -> Seq<Seq<char>> {
        self.pending.deep_view() + stripped_lines(self.source.incoming())
    }

    /// The lines already read and buffered, ahead of anything the transport
    /// still holds.
    pub open spec fn buffered(&self) -> Seq<Seq<char>> {
        self.pending.deep_view()
    }

    /// New client owning the given transport.
    pub fn new(source: S) -> (r: Client<S>)
        ensures
            r.sent() == source.sent(),
            r.stream() == stripped_lines(source.incoming()),
    {
        let r = Client { source, pending: Vec::new() };
        proof {
            assert(r.stream() =~= stripped_lines(r.source.incoming()));
        }
        r
    }

    /// Hand the transport's readable and writable sources to an external
    /// readiness notifier under the given identifiers.
    pub fn register(&mut self, poll: &Poll, input_token: Token, output_token: Token) -> (r: Result<
        (),
        std::io::Error,
    >)
        ensures
            final(self).sent() == old(self).sent(),
            final(self).stream() == old(self).stream(),
    {
        self.source.register(poll, input_token, output_token)
    }

    /// Encode the request and write its full wire form to the transport.
    /// Success means the transport accepted all of it; on failure nothing of
    /// it is considered written and the whole request is re-sent on the next
    /// attempt. A would-block condition surfaces as `NotReady`.
    pub fn send(&mut self, request: &Request) -> (r: ClientResult<()>)
        requires
            req_wf(request@),
        ensures
            final(self).stream() == old(self).stream(),
            match r {
                Ok(_) => final(self).sent() == old(self).sent().push(encode_request(request@)),
                Err(e) => final(self).sent() == old(self).sent() && (e@ is NotReady || e@ is Io),
            },
    {
        let text = encode_request_text(request);
        match self.source.write_chunk(text.as_str()) {
            Ok(_) => Ok(()),
            Err(e) => Err(ClientError::from_io_error(e)),
        }
    }

    /// Read and decode exactly one complete response.
    ///
    /// The result is pinned to [`scan`] over the client's unconsumed stream:
    /// a decoded response (or decode failure) consumes exactly the lines the
    /// decode took; a stream that ends mid-response is `TruncatedMessage`;
    /// an I/O failure (`NotReady` on would-block, `Io` otherwise) consumes
    /// nothing — every line already read stays buffered for the next call.
    /// When the buffered lines alone already decide the outcome, the call
    /// returns it without depending on the transport.
    pub fn receive(&mut self) -> (r: ClientResult<Response>)
        ensures
            final(self).sent() == old(self).sent(),
            scan(old(self).buffered()) is Done ==> r is Ok,
            (scan(old(self).buffered()) matches ScanOutcome::Fail(ev, _) ==> (r matches Err(e)
                && e@ == ev)),
            match r {
                Ok(resp) => (scan(old(self).stream()) matches ScanOutcome::Done(v, n) && v == resp@
                    && final(self).stream() == old(self).stream().skip(n)),
                Err(e) => match e@ {
                    ErrorView::TruncatedMessage => scan(old(self).stream()) is NeedMore
                        && final(self).stream() == Seq::<Seq<char>>::empty(),
                    ErrorView::NotReady => final(self).stream() == old(self).stream(),
                    ErrorView::Io => final(self).stream() == old(self).stream(),
                    _ => (scan(old(self).stream()) matches ScanOutcome::Fail(ev, n) && ev == e@
                        && final(self).stream() == old(self).stream().skip(n)),
                },
            },
    {
        let ghost full0 = self.stream();
        let ghost pend_init = self.buffered();
        loop
            invariant
                self.source.sent() == old(self).sent(),
                self.pending.deep_view() + stripped_lines(self.source.incoming()) == full0,
                full0 == old(self).stream(),
                pend_init == old(self).buffered(),
                pend_init.len() <= self.pending.deep_view().len(),
                self.pending.deep_view().subrange(0, pend_init.len() as int) == pend_init,
            decreases self.source.incoming().len(),
        {
            let outcome = parse_response(&self.pending);
            proof {
                if !(scan(pend_init) is NeedMore) {
                    let ext = self.pending.deep_view().skip(pend_init.len() as int);
                    lemma_scan_head_extend(pend_init, ext, Seq::empty(), 0);
                    assert(pend_init + ext =~= self.pending.deep_view());
                }
            }
            match outcome {
                ParseOutcome::Done(resp, n) => {
                    proof {
                        lemma_scan_head_extend(
                            self.pending.deep_view(),
                            stripped_lines(self.source.incoming()),
                            Seq::empty(),
                            0,
                        );
                    }
                    let ghost pend0 = self.pending.deep_view();
                    let tail = self.pending.split_off(n);
                    self.pending = tail;
                    proof {
                        assert(self.pending.deep_view() =~= pend0.skip(n as int));
                        assert(self.pending.deep_view() + stripped_lines(self.source.incoming())
                            =~= full0.skip(n as int));
                    }
                    return Ok(resp);
                },
                ParseOutcome::Fail(e, n) => {
                    proof {
                        lemma_scan_fail_kinds(self.pending.deep_view(), Seq::empty(), 0);
                        lemma_scan_head_extend(
                            self.pending.deep_view(),
                            stripped_lines(self.source.incoming()),
                            Seq::empty(),
                            0,
                        );
                    }
                    let ghost pend0 = self.pending.deep_view();
                    let tail = self.pending.split_off(n);
                    self.pending = tail;
                    proof {
                        assert(self.pending.deep_view() =~= pend0.skip(n as int));
                        assert(self.pending.deep_view() + stripped_lines(self.source.incoming())
                            =~= full0.skip(n as int));
                    }
                    return Err(e);
                },
                ParseOutcome::NeedMore => {
                    let ghost inc0 = self.source.incoming();
                    let ghost pend0 = self.pending.deep_view();
                    match self.source.read_line() {
                        Ok(Some(line)) => {
                            let stripped = strip_line_end(line.as_str());
                            self.pending.push(stripped);
                            proof {
                                assert(self.pending.deep_view() =~= pend0.push(strip_line(
                                    inc0[0],
                                )));
                                assert(stripped_lines(inc0.drop_first()) =~= stripped_lines(
                                    inc0,
                                ).drop_first());
                                assert(self.pending.deep_view() + stripped_lines(
                                    self.source.incoming(),
                                ) =~= pend0 + stripped_lines(inc0));
                                assert(self.pending.deep_view().subrange(
                                    0,
                                    pend_init.len() as int,
                                ) =~= pend0.subrange(0, pend_init.len() as int));
                            }
                        },
                        Ok(None) => {
                            proof {
                                assert(stripped_lines(inc0) =~= Seq::<Seq<char>>::empty());
                                assert(full0 =~= pend0);
                            }
                            self.pending = Vec::new();
                            proof {
                                assert(self.pending.deep_view() + stripped_lines(
                                    self.source.incoming(),
                                ) =~= Seq::<Seq<char>>::empty());
                            }
                            return Err(ClientError::TruncatedMessage);
                        },
                        Err(e) => {
                            return Err(ClientError::from_io_error(e));
                        },
                    }
                },
            }
        }
    }
}

} // verus!
