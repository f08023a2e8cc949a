//! The decisions that an endpoint makes: how the client half numbers its requests and matches
//! responses to them, and what each role does with an incoming message.
//!
//! An endpoint owns channels and a transport, which are driven by an event loop; here is what
//! the loop asks at each step. The client's bookkeeping is generic over the sender that answers
//! a request (`Tx`) and the one that acknowledges a notification (`Ack`).
use crate::message::{Message, Notification, Request, Response, SpecMessage, SpecRequest};
use crate::value::{SpecValue, Value};
use std::collections::HashMap;

use vstd::prelude::*;

verus! {

broadcast use vstd::std_specs::hash::group_hash_axioms;

/// The bookkeeping of a client: the id of the last request sent, the requests still waiting for
/// their response (by id), and the notifications sent but not yet acknowledged.
pub struct ClientBook<Tx, Ack> {
    client_closed: bool,
    request_id: u32,
    pending_requests: HashMap<u32, Tx>,
    pending_notifications: Vec<Ack>,
}

/// The mathematical form of a client's bookkeeping.
pub struct SpecClientBook<Tx, Ack> {
    pub closed: bool,
    pub request_id: u32,
    pub pending: Map<u32, Tx>,
    pub acks: Seq<Ack>,
}

impl<Tx, Ack> View for ClientBook<Tx, Ack> {
    type V = SpecClientBook<Tx, Ack>;

    closed spec fn view(&self) -> SpecClientBook<Tx, Ack> {
        SpecClientBook {
            closed: self.client_closed,
            request_id: self.request_id,
            pending: self.pending_requests@,
            acks: self.pending_notifications@,
        }
    }
}

impl<Tx, Ack> SpecClientBook<Tx, Ack> {
    /// Every pending request has an id that was given out: ids run from 1 to the last one.
    pub open spec fn wf(self) -> bool {
        forall|id: u32| #[trigger] self.pending.contains_key(id) ==> 1 <= id <= self.request_id
    }

    /// The bookkeeping after a request is sent with the next id.
    pub open spec fn after_request(self, tx: Tx) -> Self {
        SpecClientBook {
            request_id: (self.request_id + 1) as u32,
            pending: self.pending.insert((self.request_id + 1) as u32, tx),
            ..self
        }
    }

    /// What a response with `id` finds: the sender of its request, if that is still pending,
    /// and the bookkeeping after it is taken out.
    pub open spec fn after_response(self, id: u32) -> (Option<Tx>, Self) {
        if self.pending.contains_key(id) {
            (Some(self.pending[id]), SpecClientBook { pending: self.pending.remove(id), ..self })
        } else {
            (None, self)
        }
    }

    /// Whether the client is done: closed, with nothing pending.
    pub open spec fn finished(self) -> bool {
        self.closed && self.pending.len() == 0 && self.acks.len() == 0
    }
}

impl<Tx, Ack> ClientBook<Tx, Ack> {
    /// Every pending request has an id that was given out.
    #[verifier::type_invariant]
    spec fn inv(self) -> bool {
        forall|id: u32| #[trigger]
            self.pending_requests@.contains_key(id) ==> 1 <= id <= self.request_id
    }

    /// A new client: open, no request sent yet, nothing pending.
    pub fn new() -> (r: Self)
        ensures
            r@.wf(),
            r@.closed == false,
            r@.request_id == 0,
            r@.pending == Map::<u32, Tx>::empty(),
            r@.acks == Seq::<Ack>::empty(),
    {
        ClientBook {
            client_closed: false,
            request_id: 0,
            pending_requests: HashMap::new(),
            pending_notifications: Vec::new(),
        }
    }

    /// Whether the client half has closed its channels.
    pub fn is_closed(&self) -> (r: bool)
        ensures
            r == self@.closed,
    {
        self.client_closed
    }

    /// Records that the client closed its channels: no more requests or notifications come.
    pub fn close(&mut self)
        ensures
            final(self)@ == (SpecClientBook { closed: true, ..old(self)@ }),
    {
        proof {
            use_type_invariant(&*self);
        }
        self.client_closed = true;
    }

    /// Whether another request can get an id (ids are `u32` and count up from 1).
    pub fn can_send_request(&self) -> (r: bool)
        ensures
            r == (self@.request_id < u32::MAX),
    {
        self.request_id < u32::MAX
    }

    /// Gives `request` the next id, records `tx` as the sender that its response goes to, and
    /// returns the message to send. The id was not pending before.
    pub fn register_request(&mut self, request: Request, tx: Tx) -> (r: Message)
        requires
            old(self)@.request_id < u32::MAX,
        ensures
            final(self)@.wf(),
            final(self)@ == old(self)@.after_request(tx),
            !old(self)@.pending.contains_key(final(self)@.request_id),
            r@ == SpecMessage::Request(
                SpecRequest { id: final(self)@.request_id, ..request@ },
            ),
    {
        proof {
            use_type_invariant(&*self);
            assert(vstd::std_specs::hash::obeys_key_model::<u32>());
        }
        let id = self.request_id + 1;
        let mut pending: HashMap<u32, Tx> = HashMap::new();
        std::mem::swap(&mut pending, &mut self.pending_requests);
        pending.insert(id, tx);
        self.request_id = id;
        self.pending_requests = pending;
        let mut request = request;
        request.id = id;
        proof {
            assert forall|id: u32| #[trigger] self@.pending.contains_key(id) implies 1 <= id
                <= self@.request_id by {
                if id != self.request_id {
                    assert(old(self)@.pending.contains_key(id));
                }
            }
        }
        Message::Request(request)
    }

    /// Records `ack` as the sender that acknowledges `notification`, and returns the message to
    /// send.
    pub fn register_notification(&mut self, notification: Notification, ack: Ack) -> (r: Message)
        ensures
            final(self)@.wf(),
            final(self)@ == (SpecClientBook { acks: old(self)@.acks.push(ack), ..old(self)@ }),
            r@ == SpecMessage::Notification(notification@),
    {
        proof {
            use_type_invariant(&*self);
        }
        let mut acks: Vec<Ack> = Vec::new();
        std::mem::swap(&mut acks, &mut self.pending_notifications);
        acks.push(ack);
        self.pending_notifications = acks;
        proof {
            assert(self@.pending == old(self)@.pending);
        }
        Message::Notification(notification)
    }

    /// Takes the pending request that `response` answers: its sender and the result to send
    /// it, or `None` where no request with that id is pending (the response is then dropped).
    pub fn process_response(&mut self, response: Response) -> (r: Option<(Tx, Result<Value, Value>)>)
        ensures
            final(self)@.wf(),
            final(self)@ == old(self)@.after_response(response.id).1,
            match old(self)@.after_response(response.id).0 {
                Some(tx) => r matches Some((t, res)) && t == tx && res == response.result,
                None => r is None,
            },
            final(self)@.pending == old(self)@.pending.remove(response.id),
            final(self)@.request_id == old(self)@.request_id,
            final(self)@.acks == old(self)@.acks,
            final(self)@.closed == old(self)@.closed,
            old(self)@.pending.contains_key(response.id) ==> (r matches Some((t, res)) && t
                == old(self)@.pending[response.id] && res == response.result),
            !old(self)@.pending.contains_key(response.id) ==> r is None,
    {
        proof {
            use_type_invariant(&*self);
            assert(vstd::std_specs::hash::obeys_key_model::<u32>());
        }
        let mut pending: HashMap<u32, Tx> = HashMap::new();
        std::mem::swap(&mut pending, &mut self.pending_requests);
        let found = pending.remove(&response.id);
        self.pending_requests = pending;
        match found {
            Some(tx) => {
                assert(self@.pending =~= old(self)@.pending.remove(response.id));
                Some((tx, response.result))
            },
            None => {
                assert(self@.pending =~= old(self)@.pending);
                None
            },
        }
    }

    /// Takes the acknowledgements of all notifications sent so far, in the order they were
    /// sent, once the transport has flushed them.
    pub fn acknowledge_notifications(&mut self) -> (r: Vec<Ack>)
        ensures
            final(self)@.wf(),
            r@ == old(self)@.acks,
            final(self)@ == (SpecClientBook { acks: Seq::<Ack>::empty(), ..old(self)@ }),
    {
        proof {
            use_type_invariant(&*self);
        }
        let mut acks: Vec<Ack> = Vec::new();
        std::mem::swap(&mut acks, &mut self.pending_notifications);
        acks
    }

    /// What a flush of the transport settles: where it has completed (`flushed`), the
    /// acknowledgements of all notifications sent so far are handed out, in the order they were
    /// sent; where it has not, none is handed out and the bookkeeping stays as it is.
    pub fn settle_flush(&mut self, flushed: bool) -> (r: Vec<Ack>)
        ensures
            final(self)@.wf(),
            flushed ==> r@ == old(self)@.acks && final(self)@ == (SpecClientBook {
                acks: Seq::<Ack>::empty(),
                ..old(self)@
            }),
            !flushed ==> r@ == Seq::<Ack>::empty() && final(self)@ == old(self)@,
    {
        proof {
            use_type_invariant(&*self);
        }
        if flushed {
            self.acknowledge_notifications()
        } else {
            Vec::new()
        }
    }

    /// Whether the client is done: it has closed, and no request or notification is pending.
    pub fn is_finished(&self) -> (r: bool)
        ensures
            r == self@.finished(),
    {
        self.client_closed && self.pending_requests.is_empty()
            && self.pending_notifications.len() == 0
    }
}

/// A response to a request sent with the next id finds that request's sender, and leaves the
/// bookkeeping as it was apart from the id counter; ids are never given out twice while pending.
pub proof fn lemma_response_finds_its_request<Tx, Ack>(book: SpecClientBook<Tx, Ack>, tx: Tx)
    requires
        book.wf(),
        book.request_id < u32::MAX,
    ensures
        book.after_request(tx).wf(),
        !book.pending.contains_key(book.after_request(tx).request_id),
        book.after_request(tx).after_response(book.after_request(tx).request_id) == (
            Some(tx),
            SpecClientBook { request_id: book.after_request(tx).request_id, ..book },
        ),
{
    let after = book.after_request(tx);
    assert(after.pending.remove(after.request_id) =~= book.pending);
}

/// A response takes out exactly its own request: the sender it finds is the one recorded under
/// its id, if any; every other pending request stays pending with the same sender; nothing else
/// in the bookkeeping changes.
pub proof fn lemma_response_takes_only_its_request<Tx, Ack>(book: SpecClientBook<Tx, Ack>, id: u32)
    ensures
        book.after_response(id).0 == (if book.pending.contains_key(id) {
            Some(book.pending[id])
        } else {
            None::<Tx>
        }),
        book.after_response(id).1.pending == book.pending.remove(id),
        !book.after_response(id).1.pending.contains_key(id),
        forall|k: u32|
            k != id && #[trigger] book.pending.contains_key(k) ==> book.after_response(id).1.pending.contains_key(k)
                && book.after_response(id).1.pending[k] == book.pending[k],
        forall|k: u32|
            #[trigger] book.after_response(id).1.pending.contains_key(k) ==> book.pending.contains_key(k),
        book.after_response(id).1.request_id == book.request_id,
        book.after_response(id).1.acks == book.acks,
        book.after_response(id).1.closed == book.closed,
{
}

/// Answering one pending request leaves another pending: after the response to `i`, the
/// response to a different pending `j` still finds its own sender, and the two responses can
/// come in either order with the same outcome.
pub proof fn lemma_responses_are_independent<Tx, Ack>(book: SpecClientBook<Tx, Ack>, i: u32, j: u32)
    requires
        i != j,
        book.pending.contains_key(i),
        book.pending.contains_key(j),
    ensures
        book.after_response(i).1.after_response(j).0 == Some(book.pending[j]),
        book.after_response(j).1.after_response(i).0 == Some(book.pending[i]),
        book.after_response(i).1.after_response(j).1 == book.after_response(j).1.after_response(i).1,
        book.after_response(i).1.after_response(j).1.pending == book.pending.remove(i).remove(j),
{
    assert(book.pending.remove(i).remove(j) =~= book.pending.remove(j).remove(i));
}

/// What an endpoint does with an incoming message.
pub enum Dispatch {
    /// Hand the request to the service, and send its result back under `id`.
    HandleRequest { id: u32, method: String, params: Vec<Value> },
    /// Hand the notification to the service.
    HandleNotification { method: String, params: Vec<Value> },
    /// Give the response to the client half, which matches it to its request.
    DeliverResponse(Response),
    /// Drop the message: this endpoint does not handle its kind.
    Ignore,
}

/// The roles an endpoint can play.
#[derive(Clone, Copy, Debug, PartialEq, Eq, Structural)]
pub enum Role {
    /// Handles requests and notifications, ignores responses.
    Server,
    /// Handles responses, ignores requests and notifications.
    Client,
    /// Handles all three.
    ClientAndServer,
}

/// Decides what an endpoint in `role` does with `msg`.
pub fn dispatch(role: Role, msg: Message) -> (r: Dispatch)
    ensures
        match msg {
            Message::Request(req) => if role == Role::Client {
                r is Ignore
            } else {
                r matches Dispatch::HandleRequest { id, method, params } && id == req.id
                    && method == req.method && params == req.params
            },
            Message::Notification(n) => if role == Role::Client {
                r is Ignore
            } else {
                r matches Dispatch::HandleNotification { method, params } && method == n.method
                    && params == n.params
            },
            Message::Response(resp) => if role == Role::Server {
                r is Ignore
            } else {
                r matches Dispatch::DeliverResponse(d) && d == resp
            },
        },
{
    match msg {
        Message::Request(req) => match role {
            Role::Client => Dispatch::Ignore,
            _ => Dispatch::HandleRequest { id: req.id, method: req.method, params: req.params },
        },
        Message::Notification(n) => match role {
            Role::Client => Dispatch::Ignore,
            _ => Dispatch::HandleNotification { method: n.method, params: n.params },
        },
        Message::Response(resp) => match role {
            Role::Server => Dispatch::Ignore,
            _ => Dispatch::DeliverResponse(resp),
        },
    }
}

/// The message that carries a service's result back for the request with `id`.
pub fn response_message(id: u32, result: Result<Value, Value>) -> (r: Message)
    ensures
        r == Message::Response(Response { id, result }),
{
    Message::Response(Response { id, result })
}

/// What a pending request resolves to, given what its channel delivered: the result sent back,
/// or a nil error where the channel closed without one (the connection ended first).
pub fn response_outcome(received: Option<Result<Value, Value>>) -> (r: Result<Value, Value>)
    ensures
        match received {
            Some(res) => r == res,
            None => r matches Err(e) && e@ == SpecValue::Nil,
        },
{
    match received {
        Some(Ok(v)) => Ok(v),
        Some(Err(v)) => Err(v),
        None => Err(Value::Nil),
    }
}

/// What polling an endpoint's incoming stream gave.
pub enum Incoming<E> {
    /// A message arrived.
    Received(Message),
    /// Reading the stream failed with this error.
    Failed(E),
    /// The peer closed the stream.
    Closed,
    /// Nothing more is ready for now.
    Pending,
}

/// What an endpoint's event loop does next.
pub enum Step<E> {
    /// Handle the message, then poll the stream again.
    Handle(Message),
    /// Stop: the endpoint completes successfully.
    Finish,
    /// Stop: the endpoint completes with this error.
    Fail(E),
    /// Wait until the stream or a channel has more.
    Wait,
}

/// Decides an endpoint's next step from what its incoming stream gave: a message is handled; a
/// closed stream ends the endpoint, and so does a read error, which the endpoint passes on; when
/// nothing is ready, the endpoint ends if it has `finished` (its client half is done) and waits
/// otherwise.
pub fn next_step<E>(incoming: Incoming<E>, finished: bool) -> (r: Step<E>)
    ensures
        match incoming {
            Incoming::Received(m) => r == Step::<E>::Handle(m),
            Incoming::Failed(e) => r == Step::<E>::Fail(e),
            Incoming::Closed => r is Finish,
            Incoming::Pending => if finished {
                r is Finish
            } else {
                r is Wait
            },
        },
{
    match incoming {
        Incoming::Received(m) => Step::Handle(m),
        Incoming::Failed(e) => Step::Fail(e),
        Incoming::Closed => Step::Finish,
        Incoming::Pending => if finished {
            Step::Finish
        } else {
            Step::Wait
        },
    }
}

} // verus!
