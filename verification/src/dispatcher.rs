//! The way that requests take to the worker and responses take back.
//!
//! At most one request is under way at any time. A request that is sent while
//! another is under way waits its turn behind those sent before it. The worker
//! takes the oldest waiting request once the slot is free, that is, once the
//! response of the request before it has been drained by the interface.

use vstd::prelude::*;
use std::collections::VecDeque;
use crate::message::{Message, MessageDialog, MessageModel, MessageQueue};
use crate::parser::{HttpRequest, RequestModel};
use crate::response::Response;

verus! {

/// Where the one request under way stands.
pub enum Slot {
    /// No request is under way.
    Idle,
    /// The worker executes the request of the panel with this index.
    Running(usize),
    /// The response for the panel with this index waits to be drained.
    Done(Response, usize),
}

/// The dispatcher as plain values: the requests that wait, oldest first, each with
/// the index of its panel, and the slot of the one under way.
pub struct Stage {
    pub waiting: Seq<(RequestModel, usize)>,
    pub slot: Slot,
}

impl Stage {
    /// Nothing waits and nothing is under way.
    pub open spec fn idle() -> Stage {
        Stage { waiting: Seq::empty(), slot: Slot::Idle }
    }

    /// The index of the panel whose request is under way, if one is.
    pub open spec fn in_flight(self) -> Option<usize> {
        match self.slot {
            Slot::Idle => None,
            Slot::Running(i) => Some(i),
            Slot::Done(_, i) => Some(i),
        }
    }

    /// Every request that waits or is under way belongs to one of `n` panels.
    pub open spec fn indices_below(self, n: int) -> bool {
        &&& forall|k: int| 0 <= k < self.waiting.len() ==> (#[trigger] self.waiting[k]).1 < n
        &&& self.in_flight() is Some ==> self.in_flight()->Some_0 < n
    }

    /// A request that is sent joins the end of the line. The slot and the requests
    /// before it stay as they are.
    pub open spec fn submit(self, request: RequestModel, index: usize) -> Stage {
        Stage { waiting: self.waiting.push((request, index)), ..self }
    }

    /// The worker takes the oldest waiting request, and only while the slot is free;
    /// otherwise nothing changes and nothing is handed out.
    pub open spec fn take(self) -> (Stage, Option<(RequestModel, usize)>) {
        if self.slot is Idle && self.waiting.len() > 0 {
            (
                Stage {
                    waiting: self.waiting.drop_first(),
                    slot: Slot::Running(self.waiting[0].1),
                },
                Some(self.waiting[0]),
            )
        } else {
            (self, None)
        }
    }

    /// The worker hands in a response, which waits under the index of its request.
    pub open spec fn succeed(self, response: Response) -> Stage {
        match self.slot {
            Slot::Running(i) => Stage { slot: Slot::Done(response, i), ..self },
            _ => self,
        }
    }

    /// The worker reports a failure: the index is dropped and the slot is free.
    pub open spec fn fail(self) -> Stage {
        match self.slot {
            Slot::Running(_) => Stage { slot: Slot::Idle, ..self },
            _ => self,
        }
    }

    /// The interface takes a waiting response, which frees the slot.
    pub open spec fn drain(self) -> (Stage, Option<(Response, usize)>) {
        match self.slot {
            Slot::Done(response, i) => (Stage { slot: Slot::Idle, ..self }, Some((response, i))),
            _ => (self, None),
        }
    }
}

/// The request dispatcher as the interface sees it.
pub struct Dispatcher {
    waiting: VecDeque<(HttpRequest, usize)>,
    slot: Slot,
}

impl View for Dispatcher {
    type V = Stage;

    closed spec fn view(&self) -> Stage {
        Stage {
            waiting: self.waiting@.map_values(|w: (HttpRequest, usize)| (w.0@, w.1)),
            slot: self.slot,
        }
    }
}

impl Dispatcher {
    /// A dispatcher with nothing to do.
    pub fn new() -> (dispatcher: Dispatcher)
        ensures
            dispatcher@ == Stage::idle(),
    {
        let dispatcher = Dispatcher { waiting: VecDeque::new(), slot: Slot::Idle };
        assert(dispatcher@.waiting =~= Seq::empty());
        dispatcher
    }

    /// The index of the panel whose request is under way, if one is.
    pub fn in_flight(&self) -> (index: Option<usize>)
        ensures
            index == self@.in_flight(),
    {
        match &self.slot {
            Slot::Idle => None,
            Slot::Running(i) => Some(*i),
            Slot::Done(_, i) => Some(*i),
        }
    }

    /// The number of requests that wait for the worker.
    pub fn pending(&self) -> (n: usize)
        ensures
            n == self@.waiting.len(),
    {
        self.waiting.len()
    }

    /// Sends `request` for the panel `index`: it joins the end of the line and goes
    /// to the worker after every request sent before it.
    pub fn submit(&mut self, request: HttpRequest, index: usize)
        ensures
            final(self)@ == old(self)@.submit(request@, index),
    {
        self.waiting.push_back((request, index));
        assert(self@.waiting =~= old(self)@.waiting.push((request@, index)));
    }

    /// Hands the oldest waiting request to the worker, if the slot is free and a
    /// request waits.
    pub fn take(&mut self) -> (work: Option<(HttpRequest, usize)>)
        ensures
            final(self)@ == old(self)@.take().0,
            work is Some == old(self)@.take().1 is Some,
            work is Some ==> work->Some_0.0@ == old(self)@.take().1->Some_0.0 && work->Some_0.1
                == old(self)@.take().1->Some_0.1,
    {
        let free = match &self.slot {
            Slot::Idle => true,
            _ => false,
        };
        if !free {
            return None;
        }
        match self.waiting.pop_front() {
            Some((request, i)) => {
                self.slot = Slot::Running(i);
                assert(self@.waiting =~= old(self)@.waiting.drop_first());
                Some((request, i))
            },
            None => {
                assert(self@.waiting =~= old(self)@.waiting);
                None
            },
        }
    }

    /// Takes in what the worker brought back. A response waits in the slot under the
    /// index of its request. A failure frees the slot and joins the queue as an
    /// error message; no response is delivered for it. Without a running request
    /// nothing changes.
    pub fn complete(&mut self, outcome: Result<Response, String>, queue: &mut MessageQueue)
        ensures
            outcome is Ok ==> final(self)@ == old(self)@.succeed(outcome->Ok_0) && final(queue)@
                == old(queue)@,
            outcome is Err ==> final(self)@ == old(self)@.fail(),
            outcome is Err && old(self)@.slot is Running ==> final(queue)@ == old(queue)@.push(
                MessageModel::Error(outcome->Err_0@),
            ),
            outcome is Err && !(old(self)@.slot is Running) ==> final(queue)@ == old(queue)@,
    {
        let running = match &self.slot {
            Slot::Running(i) => Some(*i),
            _ => None,
        };
        match running {
            Some(i) => match outcome {
                Ok(response) => {
                    self.slot = Slot::Done(response, i);
                },
                Err(text) => {
                    self.slot = Slot::Idle;
                    MessageDialog::push_message(queue, Message::Error(text));
                },
            },
            None => {},
        }
    }

    /// Takes the waiting response out, if there is one, and frees the slot.
    pub fn drain(&mut self) -> (done: Option<(Response, usize)>)
        ensures
            final(self)@ == old(self)@.drain().0,
            done == old(self)@.drain().1,
    {
        let mut slot = Slot::Idle;
        std::mem::swap(&mut self.slot, &mut slot);
        match slot {
            Slot::Done(response, i) => Some((response, i)),
            other => {
                self.slot = other;
                None
            },
        }
    }
}

/// A second request sent while the first is under way is delayed, not lost. From a
/// dispatcher with nothing to do: the first request goes to the worker at once; the
/// second waits while the first runs and while its response has not been drained;
/// the response is drained under the index that the first was sent with; only then
/// does the second go to the worker, under its own index.
pub proof fn responses_land_where_sent(
    first: RequestModel,
    index: usize,
    second: RequestModel,
    other: usize,
    response: Response,
)
    ensures
        ({
            let running = Stage::idle().submit(first, index).take();
            let both = running.0.submit(second, other);
            let done = both.succeed(response);
            let drained = done.drain();
            let next = drained.0.take();
            &&& running.1 == Some((first, index))
            &&& running.0.in_flight() == Some(index)
            &&& both.waiting == seq![(second, other)]
            &&& both.take() == (both, None::<(RequestModel, usize)>)
            &&& done.in_flight() == Some(index)
            &&& done.take() == (done, None::<(RequestModel, usize)>)
            &&& drained.1 == Some((response, index))
            &&& drained.0.in_flight() is None
            &&& next.1 == Some((second, other))
            &&& next.0 == (Stage { waiting: Seq::empty(), slot: Slot::Running(other) })
            &&& both.fail().take().1 == Some((second, other))
        }),
{
    let running = Stage::idle().submit(first, index).take();
    let both = running.0.submit(second, other);
    assert(Stage::idle().submit(first, index).waiting.drop_first() =~= Seq::empty());
    assert(both.waiting =~= seq![(second, other)]);
    assert(both.waiting.drop_first() =~= Seq::empty());
}

/// Whatever waits and whatever is under way, a request that is sent changes neither
/// the slot nor the requests that wait before it, and is the last in line. The
/// worker gets a request exactly when the slot is free and a request waits, and
/// then the oldest one; no step but `take` shortens the line.
pub proof fn requests_wait_their_turn(
    stage: Stage,
    request: RequestModel,
    index: usize,
    response: Response,
)
    ensures
        stage.submit(request, index).slot == stage.slot,
        stage.submit(request, index).waiting.len() == stage.waiting.len() + 1,
        stage.submit(request, index).waiting.subrange(0, stage.waiting.len() as int)
            == stage.waiting,
        stage.submit(request, index).waiting.last() == (request, index),
        stage.take().1 is Some == (stage.in_flight() is None && stage.waiting.len() > 0),
        stage.take().1 is Some ==> stage.take().1 == Some(stage.waiting[0]),
        stage.succeed(response).waiting == stage.waiting,
        stage.fail().waiting == stage.waiting,
        stage.drain().0.waiting == stage.waiting,
{
    assert(stage.submit(request, index).waiting.subrange(0, stage.waiting.len() as int)
        =~= stage.waiting);
}

} // verus!
