//! The session actor's decisions: what it does with each outbound command
//! and each inbound frame. The actor loop itself only performs the steps
//! these functions return.

use vstd::prelude::*;
use crate::frame::{json_layout, parse_frame, Shape};
use crate::key::{correlation_key, key_of, names};
use crate::registry::{CallbackRegistry, CallbackType};

verus! {

/// A request from a caller to the actor, carried by the outbound queue.
pub enum ObnizCommand<R, H> {
    /// Write `message` to the connection; `response_key` is the key of the
    /// call that awaits a reply to it, if any.
    Send { message: String, response_key: Option<String> },
    /// Register `callback` on `key`, replacing any waiter there.
    RegisterCallback { key: String, callback: CallbackType<R, H> },
    /// Remove the waiter on `key`, if any.
    UnregisterCallback { key: String },
}

/// What routing hands to a waiter.
pub enum Delivery<R> {
    /// Resolve a one-shot waiter (now removed) with the whole document.
    Resolve { key: String, responder: R },
    /// Invoke the persistent handler on `key` with one element: item
    /// `element` of the array, or the whole document when `None`.
    Invoke { key: String, element: Option<usize> },
}

/// The mathematical content of a `Delivery`.
pub enum Dispatch<R> {
    Resolve(Seq<char>, R),
    Invoke(Seq<char>, Option<nat>),
}

impl<R> Delivery<R> {
    pub open spec fn view(&self) -> Dispatch<R> {
        match self {
            Delivery::Resolve { key, responder } => Dispatch::Resolve(key@, *responder),
            Delivery::Invoke { key, element } => Dispatch::Invoke(
                key@,
                match element {
                    Some(i) => Some(*i as nat),
                    None => None,
                },
            ),
        }
    }
}

pub open spec fn dispatches<R>(ds: Seq<Delivery<R>>) -> Seq<Dispatch<R>> {
    ds.map_values(|d: Delivery<R>| d.view())
}

/// Where element `i` of a document stands: its index in an array, or the
/// whole document.
pub open spec fn position(indexed: bool, i: int) -> Option<nat> {
    if indexed {
        Some(i as nat)
    } else {
        None
    }
}

/// Routing of one element with top-level field names `fields`: no key or
/// no waiter drops it; a one-shot waiter is resolved and removed; a
/// persistent one is invoked and kept.
pub open spec fn route_element<R, H>(
    reg: Map<Seq<char>, CallbackType<R, H>>,
    fields: Seq<Seq<char>>,
    at: Option<nat>,
) -> (Map<Seq<char>, CallbackType<R, H>>, Seq<Dispatch<R>>) {
    match key_of(fields) {
        None => (reg, Seq::empty()),
        Some(k) => if !reg.contains_key(k) {
            (reg, Seq::empty())
        } else {
            match reg[k] {
                CallbackType::OneShot(r) => (reg.remove(k), seq![Dispatch::Resolve(k, r)]),
                CallbackType::Persistent(_) => (reg, seq![Dispatch::Invoke(k, at)]),
            }
        },
    }
}

/// Routing of the first `n` elements of a document, one after another.
pub open spec fn route_prefix<R, H>(
    reg: Map<Seq<char>, CallbackType<R, H>>,
    indexed: bool,
    elems: Seq<Seq<Seq<char>>>,
    n: int,
) -> (Map<Seq<char>, CallbackType<R, H>>, Seq<Dispatch<R>>)
    decreases n,
{
    if n <= 0 {
        (reg, Seq::empty())
    } else {
        let (m, ds) = route_prefix(reg, indexed, elems, n - 1);
        let (m2, d) = route_element(m, elems[n - 1], position(indexed, n - 1));
        (m2, ds + d)
    }
}

/// Routing of a whole document: the registry after it, and the deliveries
/// in order.
pub open spec fn route<R, H>(
    reg: Map<Seq<char>, CallbackType<R, H>>,
    indexed: bool,
    elems: Seq<Seq<Seq<char>>>,
) -> (Map<Seq<char>, CallbackType<R, H>>, Seq<Dispatch<R>>) {
    route_prefix(reg, indexed, elems, elems.len() as int)
}

fn route_one<R, H>(
    registry: &mut CallbackRegistry<R, H>,
    fields: &Vec<String>,
    at: Option<usize>,
    out: &mut Vec<Delivery<R>>,
)
    requires
        old(registry).wf(),
    ensures
        final(registry).wf(),
        ({
            let (m, d) = route_element(
                old(registry).view(),
                names(fields@),
                match at {
                    Some(i) => Some(i as nat),
                    None => None,
                },
            );
            final(registry).view() == m && dispatches(final(out)@) == dispatches(old(out)@) + d
        }),
{
    let ghost before = out@;
    match correlation_key(fields) {
        None => {
            assert(dispatches(out@) =~= dispatches(before) + Seq::empty());
        },
        Some(k) => {
            let one_shot = match registry.get(&k) {
                None => {
                    assert(dispatches(out@) =~= dispatches(before) + Seq::empty());
                    return ;
                },
                Some(CallbackType::OneShot(_)) => true,
                Some(CallbackType::Persistent(_)) => false,
            };
            if one_shot {
                if let Some(CallbackType::OneShot(responder)) = registry.unregister(&k) {
                    out.push(Delivery::Resolve { key: k, responder });
                }
            } else {
                out.push(Delivery::Invoke { key: k, element: at });
            }
            assert(dispatches(out@) =~= dispatches(before) + route_element(
                old(registry).view(),
                names(fields@),
                match at {
                    Some(i) => Some(i as nat),
                    None => None,
                },
            ).1);
        },
    }
}

/// Routes every element of a document to its waiter: the elements of an
/// array one by one, else the document as its single element.
pub fn route_frame<R, H>(registry: &mut CallbackRegistry<R, H>, shape: &Shape) -> (r: Vec<
    Delivery<R>,
>)
    requires
        old(registry).wf(),
    ensures
        final(registry).wf(),
        final(registry).view() == route(old(registry).view(), shape.is_sequence(), shape.elements()).0,
        dispatches(r@) == route(old(registry).view(), shape.is_sequence(), shape.elements()).1,
{
    let mut out: Vec<Delivery<R>> = Vec::new();
    let ghost start = registry.view();
    let ghost indexed = shape.is_sequence();
    let ghost elems = shape.elements();
    match shape {
        Shape::Sequence(items) => {
            let mut i: usize = 0;
            while i < items.len()
                invariant
                    registry.wf(),
                    i <= items@.len(),
                    indexed,
                    elems == items@.map_values(|f: Vec<String>| names(f@)),
                    registry.view() == route_prefix(start, indexed, elems, i as int).0,
                    dispatches(out@) == route_prefix(start, indexed, elems, i as int).1,
                decreases items@.len() - i,
            {
                route_one(registry, &items[i], Some(i), &mut out);
                i = i + 1;
            }
            assert(elems.len() == items@.len());
        },
        Shape::Single(fields) => {
            assert(dispatches(out@) =~= Seq::empty());
            route_one(registry, fields, None, &mut out);
            assert(elems[0] == names(fields@));
            assert(route_prefix(start, indexed, elems, 0) == (start, Seq::<Dispatch<R>>::empty()));
            assert(Seq::<Dispatch<R>>::empty() + dispatches(out@) =~= dispatches(out@));
        },
    }
    out
}

/// What woke the actor.
pub enum Event<R, H> {
    /// The next command from the outbound queue.
    Outbound(ObnizCommand<R, H>),
    /// Every sender of the outbound queue is gone.
    QueueClosed,
    /// A text frame from the connection.
    Frame(String),
    /// Reading from the connection failed; the connection stays open.
    ReadFailed,
    /// The connection's read side reached its end.
    ConnectionClosed,
}

/// What the actor does next.
pub enum Step<R> {
    /// Write this payload to the connection; a failure is reported, not
    /// retried.
    Write(String),
    /// Hand the document to the deliveries, in order.
    Deliver(serde_json::Value, Vec<Delivery<R>>),
    /// The frame was not valid JSON: report it and drop it.
    Malformed,
    /// Nothing to do.
    Idle,
    /// End the session; waiters still pending are dropped unresolved.
    Stop,
}

/// The actor's state: the callback registry, which only the actor mutates.
pub struct Session<R, H> {
    registry: CallbackRegistry<R, H>,
}

impl<R, H> Session<R, H> {
    /// The waiters, by key.
    pub closed spec fn view(&self) -> Map<Seq<char>, CallbackType<R, H>> {
        self.registry.view()
    }

    pub closed spec fn wf(&self) -> bool {
        self.registry.wf()
    }

    /// A session with no waiters.
    pub fn new() -> (r: Self)
        ensures
            r.wf(),
            r.view() == Map::<Seq<char>, CallbackType<R, H>>::empty(),
    {
        Session { registry: CallbackRegistry::new() }
    }

    /// Number of keys with a waiter.
    pub fn pending(&self) -> (r: usize)
        requires
            self.wf(),
        ensures
            r == self.view().len(),
    {
        self.registry.len()
    }

    /// Whether `key` has a waiter.
    pub fn is_registered(&self, key: &String) -> (r: bool)
        requires
            self.wf(),
        ensures
            r == self.view().contains_key(key@),
    {
        self.registry.contains(key)
    }

    /// The persistent handler on `key`, if that is what waits there.
    pub fn handler(&self, key: &String) -> (r: Option<&H>)
        requires
            self.wf(),
        ensures
            r matches Some(h) ==> self.view().contains_key(key@) && self.view()[key@]
                == CallbackType::<R, H>::Persistent(*h),
            r is None ==> !(self.view().contains_key(key@) && self.view()[key@] is Persistent),
    {
        match self.registry.get(key) {
            Some(CallbackType::Persistent(h)) => Some(h),
            _ => None,
        }
    }

    /// Handles one event. Commands are applied in the order they come;
    /// a frame that is not valid JSON changes nothing; only the end of the
    /// queue or of the connection ends the session.
    pub fn step(&mut self, event: Event<R, H>) -> (r: Step<R>)
        requires
            old(self).wf(),
        ensures
            final(self).wf(),
            match event {
                Event::Outbound(ObnizCommand::Send { message, .. }) => r == Step::<R>::Write(message)
                    && final(self).view() == old(self).view(),
                Event::Outbound(ObnizCommand::RegisterCallback { key, callback }) => r is Idle
                    && final(self).view() == old(self).view().insert(key@, callback),
                Event::Outbound(ObnizCommand::UnregisterCallback { key }) => r is Idle
                    && final(self).view() == old(self).view().remove(key@),
                Event::QueueClosed => r is Stop && final(self).view() == old(self).view(),
                Event::ConnectionClosed => r is Stop && final(self).view() == old(self).view(),
                Event::ReadFailed => r is Idle && final(self).view() == old(self).view(),
                Event::Frame(text) => match json_layout(text@) {
                    None => r is Malformed && final(self).view() == old(self).view(),
                    Some((indexed, elems)) => r matches Step::Deliver(_, ds) && final(self).view()
                        == route(old(self).view(), indexed, elems).0 && dispatches(ds@)
                        == route(old(self).view(), indexed, elems).1,
                },
            },
    {
        match event {
            Event::Outbound(ObnizCommand::Send { message, .. }) => Step::Write(message),
            Event::Outbound(ObnizCommand::RegisterCallback { key, callback }) => {
                self.registry.register(key, callback);
                Step::Idle
            },
            Event::Outbound(ObnizCommand::UnregisterCallback { key }) => {
                let _ = self.registry.unregister(&key);
                Step::Idle
            },
            Event::QueueClosed => Step::Stop,
            Event::ConnectionClosed => Step::Stop,
            Event::ReadFailed => Step::Idle,
            Event::Frame(text) => match parse_frame(text.as_str()) {
                Ok(frame) => {
                    let ds = route_frame(&mut self.registry, &frame.shape);
                    Step::Deliver(frame.document, ds)
                },
                Err(_) => Step::Malformed,
            },
        }
    }
}

/// The two commands of a request/response call, in the order they must
/// enter the queue: the one-shot registration on `key` first, so that it is
/// in place before any reply can be routed, then the payload.
pub fn call_commands<R, H>(message: String, key: String, responder: R) -> (r: (
    ObnizCommand<R, H>,
    ObnizCommand<R, H>,
))
    ensures
        r.0 matches ObnizCommand::RegisterCallback { key: k, callback } && k@ == key@ && callback
            == CallbackType::<R, H>::OneShot(responder),
        r.1 matches ObnizCommand::Send { message: m, response_key: Some(rk) } && m@ == message@
            && rk@ == key@,
{
    let response_key = key.clone();
    (
        ObnizCommand::RegisterCallback { key, callback: CallbackType::OneShot(responder) },
        ObnizCommand::Send { message, response_key: Some(response_key) },
    )
}

/// Why a request/response call ended without a reply.
#[derive(Debug, PartialEq, Eq, Structural)]
pub enum CallError {
    /// The session ended, or the reply channel was dropped, first.
    Disconnected,
    /// The caller's own wait was cancelled.
    Cancelled,
    /// No inbound frame ever matched the call's key.
    NoMatch,
}

/// The session has ended: its outbound queue no longer takes commands.
#[derive(Debug, PartialEq, Eq, Structural)]
pub struct SessionEnded;

/// The outcome of a call from what its reply channel gave: the document, or
/// nothing because the channel was dropped unresolved.
pub fn call_outcome<T>(reply: Option<T>) -> (r: Result<T, CallError>)
    ensures
        reply matches Some(d) ==> r == Ok::<T, CallError>(d),
        reply is None ==> r == Err::<T, CallError>(CallError::Disconnected),
{
    match reply {
        Some(d) => Ok(d),
        None => Err(CallError::Disconnected),
    }
}

} // verus!
