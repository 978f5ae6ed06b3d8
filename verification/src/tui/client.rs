//! What the terminal UI needs from the daemon's control socket.
//!
//! Two independent connections carry it:
//!
//! * the **command connection**: one fresh connection per [`Client::call`], since the daemon
//!   answers exactly one command on each and closes it;
//! * the **event connection**: it sends `Subscribe`, is answered once (see
//!   [`subscription_ack`](crate::killbillctl::subscription_ack)), and then carries one
//!   [`StreamEvent`] per frame. It is the single authority on whether the daemon is reachable.
//!
//! Neither path caches daemon state.

use std::collections::VecDeque;

use crate::proto::protocol::{Command, CommandView, Reply, ReplyView, StreamEvent, StreamEventView};
use crate::text;
use vstd::prelude::*;

verus! {

/// What a call gives back: a reply, or why there is none.
pub type Answer = Result<ReplyView, Seq<char>>;

/// The view of what a call gives back.
pub open spec fn answer_view(r: Result<Reply, String>) -> Answer {
    match r {
        Ok(reply) => Ok(reply@),
        Err(e) => Err(e@),
    }
}

/// What the app needs from a control-socket client: one command out, one reply back. A call may
/// take seconds, so the client also tells the time, for whoever waited.
///
/// What a client was called with and what it answered is part of its contract. An impl that is to
/// be verified states the spec functions `log`, `answers` and `readings`, and `script` where its
/// answers are known beforehand; their defaults cannot meet the contract, and are there for a
/// program that brings a client of its own outside of Verus.
pub trait Client {
    /// Every command it was called with, in order.
    open spec fn log(&self) -> Seq<CommandView> {
        arbitrary()
    }

    /// What it answered to each of them.
    open spec fn answers(&self) -> Seq<Answer> {
        arbitrary()
    }

    /// What its clock read, each time it was asked.
    open spec fn readings(&self) -> Seq<u64> {
        arbitrary()
    }

    /// What it is known beforehand to answer, by the number of the call. Of a client at the
    /// other end of which someone else decides, nothing.
    open spec fn script(&self) -> Map<nat, Answer> {
        Map::empty()
    }

    /// Sends one command and waits for its reply.
    fn call(&mut self, cmd: &Command) -> (r: Result<Reply, String>)
        ensures
            final(self).log() == old(self).log().push(cmd@),
            final(self).answers() == old(self).answers().push(answer_view(r)),
            final(self).readings() == old(self).readings(),
            final(self).script() == old(self).script(),
            old(self).script().dom().contains(old(self).answers().len()) ==> answer_view(r)
                == old(self).script()[old(self).answers().len()],
    ;

    /// The time in milliseconds, on a clock that only goes forward.
    fn now(&mut self) -> (r: u64)
        ensures
            final(self).log() == old(self).log(),
            final(self).answers() == old(self).answers(),
            final(self).readings() == old(self).readings().push(r),
            final(self).script() == old(self).script(),
    ;
}

/// Whether answers are the ones that were known beforehand, as far as they were.
#[verifier::opaque]
pub open spec fn true_to(script: Map<nat, Answer>, answers: Seq<Answer>) -> bool {
    forall|n: nat|
        n < answers.len() && #[trigger] script.dom().contains(n) ==> answers[n as int] == script[n]
}

/// A client with no socket behind it: fixed replies, in order, a clock that is set by hand, and
/// a record of every command it was called with.
pub struct ScriptedClient {
    pub replies: VecDeque<Result<Reply, String>>,
    pub calls: Vec<Command>,
    pub clock: u64,
    pub answered: Ghost<Seq<Answer>>,
    pub read: Ghost<Seq<u64>>,
}

/// What the scripted client answers once its script is at an end.
pub open spec fn script_over() -> Answer {
    Err("ScriptedClient: no more scripted replies"@)
}

impl ScriptedClient {
    /// The replies that are left.
    pub open spec fn left(&self) -> Seq<Answer> {
        self.replies@.map_values(|r: Result<Reply, String>| answer_view(r))
    }

    pub fn new(replies: Vec<Result<Reply, String>>) -> (r: Self)
        ensures
            r.replies@ == replies@,
            r.calls@.len() == 0,
            r.clock == 0,
            r.log() == Seq::<CommandView>::empty(),
            r.answers() == Seq::<Answer>::empty(),
            r.readings() == Seq::<u64>::empty(),
            forall|n: nat|
                #![trigger r.script()[n]]
                r.script().dom().contains(n) && r.script()[n] == (if n < replies@.len() {
                    answer_view(replies@[n as int])
                } else {
                    script_over()
                }),
    {
        let mut left = replies;
        let mut script: VecDeque<Result<Reply, String>> = VecDeque::new();
        assert(script@ == replies@.skip(left@.len() as int));
        while left.len() > 0
            invariant
                left@.len() <= replies@.len(),
                left@ == replies@.take(left@.len() as int),
                script@ == replies@.skip(left@.len() as int),
            decreases left@.len(),
        {
            let ghost before = left@;
            if let Some(last) = left.pop() {
                script.push_front(last);
                proof {
                    assert(last == replies@[before.len() - 1]);
                    assert(script@ =~= replies@.skip(left@.len() as int));
                    assert(left@ =~= replies@.take(left@.len() as int));
                }
            }
        }
        assert(script@ =~= replies@);
        let r = ScriptedClient {
            replies: script,
            calls: Vec::new(),
            clock: 0,
            answered: Ghost(Seq::empty()),
            read: Ghost(Seq::empty()),
        };
        assert(r.log() =~= Seq::<CommandView>::empty());
        r
    }
}

impl Client for ScriptedClient {
    open spec fn log(&self) -> Seq<CommandView> {
        text::views(self.calls@)
    }

    open spec fn answers(&self) -> Seq<Answer> {
        self.answered@
    }

    open spec fn readings(&self) -> Seq<u64> {
        self.read@
    }

    /// What was answered, then the replies that are left, then the same error for good.
    open spec fn script(&self) -> Map<nat, Answer> {
        Map::new(
            |n: nat| true,
            |n: nat|
                if n < self.answered@.len() {
                    self.answered@[n as int]
                } else if n - self.answered@.len() < self.left().len() {
                    self.left()[n - self.answered@.len()]
                } else {
                    script_over()
                },
        )
    }

    /// The next reply of the script, or an error once there is none left. The command is
    /// recorded either way.
    fn call(&mut self, cmd: &Command) -> (r: Result<Reply, String>)
        ensures
            old(self).left().len() > 0 ==> {
                &&& answer_view(r) == old(self).left()[0]
                &&& final(self).left() == old(self).left().skip(1)
            },
            old(self).left().len() == 0 ==> {
                &&& answer_view(r) == script_over()
                &&& final(self).left().len() == 0
            },
            final(self).clock == old(self).clock,
    {
        let ghost before = *self;
        self.calls.push(cmd.clone());
        assert(text::views(self.calls@) =~= before.log().push(cmd@));
        let r = match self.replies.pop_front() {
            Some(reply) => reply,
            None => Err("ScriptedClient: no more scripted replies".to_owned()),
        };
        self.answered = Ghost(self.answered@.push(answer_view(r)));
        proof {
            if before.left().len() > 0 {
                assert(self.left() =~= before.left().skip(1));
            }
            assert(self.script() =~= before.script());
        }
        r
    }

    /// The clock as it was set.
    fn now(&mut self) -> (r: u64)
        ensures
            r == old(self).clock,
            final(self).clock == old(self).clock,
            final(self).left() == old(self).left(),
    {
        let ghost before = *self;
        self.read = Ghost(self.read@.push(self.clock));
        assert(self.script() =~= before.script());
        self.clock
    }
}

/// A message from the event connection to the app.
pub enum ClientMsg {
    /// The event connection is up and the `Subscribe` was accepted.
    Connected,
    /// The event connection is gone; the string says why.
    Disconnected(String),
    /// An unsolicited event pushed by the daemon, with the daemon's own timestamp for it.
    Event(StreamEvent),
}

/// What a [`ClientMsg`] holds.
pub enum ClientMsgView {
    Connected,
    Disconnected(Seq<char>),
    Event(StreamEventView),
}

impl View for ClientMsg {
    type V = ClientMsgView;

    open spec fn view(&self) -> ClientMsgView {
        match self {
            ClientMsg::Connected => ClientMsgView::Connected,
            ClientMsg::Disconnected(why) => ClientMsgView::Disconnected(why@),
            ClientMsg::Event(e) => ClientMsgView::Event(e@),
        }
    }
}

/// What one read on the event connection gave.
pub enum EventRead {
    /// The daemon closed the stream.
    Closed,
    /// Nothing came before the read timed out.
    TimedOut,
    /// A frame that reads as an event.
    Event(StreamEvent),
    /// A frame that does not, and why.
    Unreadable(String),
    /// The read failed, and why.
    Failed(String),
}

/// What follows from one read on the event connection.
pub enum PumpStep {
    /// Read on, with nothing to tell.
    Wait,
    /// Tell the app, and read on.
    Deliver(ClientMsg),
    /// Tell the app; the connection is to be made anew.
    Reconnect(ClientMsg),
}

/// Whether a step is the one that follows from a read on the event connection.
pub open spec fn follows_from(read: EventRead, r: PumpStep) -> bool {
    match (read, r) {
        (EventRead::TimedOut, PumpStep::Wait) => true,
        (EventRead::Event(e), PumpStep::Deliver(m)) => m@ == ClientMsgView::Event(e@),
        (EventRead::Closed, PumpStep::Reconnect(m)) => m@ == ClientMsgView::Disconnected(
            "the daemon closed the event stream"@,
        ),
        (EventRead::Unreadable(why), PumpStep::Reconnect(m)) => m@ == ClientMsgView::Disconnected(
            "unreadable event frame: "@ + why@,
        ),
        (EventRead::Failed(why), PumpStep::Reconnect(m)) => m@ == ClientMsgView::Disconnected(
            why@,
        ),
        _ => false,
    }
}

/// What follows from one read on the event connection. A timeout is not a disconnect: the
/// daemon can stay quiet for as long as nothing happens.
pub fn pump_step(read: EventRead) -> (r: PumpStep)
    ensures
        follows_from(read, r),
{
    match read {
        EventRead::TimedOut => PumpStep::Wait,
        EventRead::Event(e) => PumpStep::Deliver(ClientMsg::Event(e)),
        EventRead::Closed => PumpStep::Reconnect(
            ClientMsg::Disconnected("the daemon closed the event stream".to_owned()),
        ),
        EventRead::Unreadable(why) => PumpStep::Reconnect(
            ClientMsg::Disconnected("unreadable event frame: ".to_owned().concat(why.as_str())),
        ),
        EventRead::Failed(why) => PumpStep::Reconnect(ClientMsg::Disconnected(why)),
    }
}

/// An event connection is given up exactly where it is closed, broken or unreadable, and the app is
/// then told that it is down; every event is told as it came, and silence is not taken for an end.
pub proof fn silence_is_not_the_end(read: EventRead, r: PumpStep)
    requires
        follows_from(read, r),
    ensures
        r is Wait <==> read is TimedOut,
        r is Reconnect <==> read is Closed || read is Unreadable || read is Failed,
        r matches PumpStep::Reconnect(m) ==> m is Disconnected,
        read matches EventRead::Event(e) ==> (r matches PumpStep::Deliver(ClientMsg::Event(d))
            && d@ == e@),
        read matches EventRead::Failed(why) ==> (r matches PumpStep::Reconnect(
            ClientMsg::Disconnected(said),
        ) && said@ == why@),
{
}

} // verus!
