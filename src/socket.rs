//! The live delivery endpoint: what a client connection does with each event it receives.
use vstd::prelude::*;

use crate::events::Event;
use crate::notifications::NotificationError;

verus! {

/// What the connection does with one message of its subscription.
#[derive(Debug)]
pub enum Reaction {
    /// Send the event to the client as a text frame.
    Forward(Event),
    /// Close the connection: the user was logged out.
    Close,
    /// The message could not be received; it is dropped and the connection stays open.
    Drop(NotificationError),
    /// The connection is closed; the message is ignored.
    Ignore,
}

/// What a connection that is `open` does with a message.
pub open spec fn reaction_to(open: bool, msg: Result<Event, NotificationError>) -> Reaction {
    if !open {
        Reaction::Ignore
    } else {
        match msg {
            Ok(Event::Logout) => Reaction::Close,
            Ok(e) => Reaction::Forward(e),
            Err(e) => Reaction::Drop(e),
        }
    }
}

/// The events that a connection that is `open` forwards from a sequence of messages.
pub open spec fn forwarded(open: bool, msgs: Seq<Result<Event, NotificationError>>) -> Seq<Event>
    decreases msgs.len(),
{
    if !open || msgs.len() == 0 {
        Seq::empty()
    } else {
        match msgs[0] {
            Ok(Event::Logout) => Seq::empty(),
            Ok(e) => seq![e] + forwarded(true, msgs.drop_first()),
            Err(_) => forwarded(true, msgs.drop_first()),
        }
    }
}

/// Whether a connection that is `open` is still open after a sequence of messages.
pub open spec fn open_after(open: bool, msgs: Seq<Result<Event, NotificationError>>) -> bool {
    open && forall|i: int| 0 <= i < msgs.len() ==> !(#[trigger] msgs[i] matches Ok(Event::Logout))
}

/// A connection that meets the forced-logout event forwards nothing that comes with or after
/// it, however many messages are already waiting.
pub proof fn lemma_logout_closes(
    open: bool,
    msgs: Seq<Result<Event, NotificationError>>,
    k: int,
)
    requires
        0 <= k < msgs.len(),
        msgs[k] matches Ok(Event::Logout),
    ensures
        forwarded(open, msgs) == forwarded(open, msgs.subrange(0, k)),
        !open_after(open, msgs),
    decreases k,
{
    if open && k > 0 {
        let rest = msgs.drop_first();
        lemma_logout_closes(true, rest, k - 1);
        assert(msgs.subrange(0, k).drop_first() =~= rest.subrange(0, k - 1));
        assert(msgs.subrange(0, k)[0] == msgs[0]);
    }
    if open && k == 0 {
        assert(msgs.subrange(0, 0).len() == 0);
    }
}

/// A control or data frame of the connection, from or to the client.
#[derive(Clone, Debug, PartialEq)]
pub enum Frame {
    Ping(Vec<u8>),
    Pong(Vec<u8>),
    Text(String),
    Binary(Vec<u8>),
    Close(Option<String>),
}

/// The answer to a frame from the client: a ping is answered with a pong of the same payload, a
/// close with a close, text and binary data are sent back as they came; nothing else is
/// answered.
pub open spec fn answer_to(frame: Frame) -> Option<Frame> {
    match frame {
        Frame::Ping(p) => Some(Frame::Pong(p)),
        Frame::Pong(_) => None,
        Frame::Text(t) => Some(Frame::Text(t)),
        Frame::Binary(b) => Some(Frame::Binary(b)),
        Frame::Close(reason) => Some(Frame::Close(reason)),
    }
}

/// A connection that streams one user's events to the client.
pub struct NotificationSocket {
    open: bool,
}

impl NotificationSocket {
    /// Whether the connection is still open.
    pub closed spec fn is_open(&self) -> bool {
        self.open
    }

    /// Starts a connection.
    pub fn new() -> (r: NotificationSocket)
        ensures
            r.is_open(),
    {
        NotificationSocket { open: true }
    }

    /// Whether the connection is still open.
    pub fn open(&self) -> (r: bool)
        ensures
            r == self.is_open(),
    {
        self.open
    }

    /// Answers a frame that the client sent.
    pub fn respond(&self, frame: Frame) -> (r: Option<Frame>)
        ensures
            r == answer_to(frame),
    {
        match frame {
            Frame::Ping(p) => Some(Frame::Pong(p)),
            Frame::Pong(_) => None,
            Frame::Text(t) => Some(Frame::Text(t)),
            Frame::Binary(b) => Some(Frame::Binary(b)),
            Frame::Close(reason) => Some(Frame::Close(reason)),
        }
    }

    /// Handles one message of the subscription: the forced-logout event closes the connection,
    /// another event is forwarded, an error is dropped; once closed, all is ignored.
    pub fn handle(&mut self, msg: Result<Event, NotificationError>) -> (r: Reaction)
        ensures
            r == reaction_to(old(self).is_open(), msg),
            final(self).is_open() == (old(self).is_open() && !(msg matches Ok(Event::Logout))),
    {
        if !self.open {
            return Reaction::Ignore;
        }
        match msg {
            Ok(Event::Logout) => {
                self.open = false;
                Reaction::Close
            },
            Ok(e) => Reaction::Forward(e),
            Err(e) => Reaction::Drop(e),
        }
    }

    /// Handles the messages that are waiting, in order, and returns the events to forward.
    pub fn handle_all(&mut self, msgs: Vec<Result<Event, NotificationError>>) -> (r: Vec<Event>)
        ensures
            r@ == forwarded(old(self).is_open(), msgs@),
            final(self).is_open() == open_after(old(self).is_open(), msgs@),
    {
        let ghost all = msgs@;
        let ghost start = self.open;
        let mut msgs = msgs;
        let mut r: Vec<Event> = Vec::new();
        let mut done: usize = 0;
        let total = msgs.len();
        while msgs.len() > 0
            invariant
                all.len() == total,
                done + msgs@.len() == all.len(),
                msgs@ == all.subrange(done as int, all.len() as int),
                r@ + forwarded(self.open, msgs@) == forwarded(start, all),
                self.open == open_after(start, all.subrange(0, done as int)),
            decreases msgs@.len(),
        {
            let ghost before = msgs@;
            let ghost was_open = self.open;
            let ghost r_before = r@;
            let m = msgs.remove(0);
            assert(msgs@ =~= before.drop_first());
            assert(all.subrange(0, done + 1) =~= all.subrange(0, done as int).push(m));
            let ghost gm = m;
            let reaction = self.handle(m);
            match reaction {
                Reaction::Forward(e) => {
                    r.push(e);
                },
                _ => {},
            }
            proof {
                let rest = before.drop_first();
                if was_open {
                    match gm {
                        Ok(Event::Logout) => {},
                        Ok(e) => {
                            assert(forwarded(was_open, before) == seq![e] + forwarded(true, rest));
                            assert(r@ == r_before.push(e));
                            assert(r_before + (seq![e] + forwarded(true, rest)) =~= r_before.push(
                                e,
                            ) + forwarded(true, rest));
                        },
                        Err(_) => {},
                    }
                }
                let pre = all.subrange(0, done as int);
                let post = all.subrange(0, done + 1);
                assert(post[done as int] == gm);
                assert forall|i: int| 0 <= i < pre.len() implies post[i] == pre[i] by {}
            }
            done = done + 1;
        }
        assert(all.subrange(0, done as int) =~= all);
        assert(r@ + Seq::<Event>::empty() =~= r@);
        r
    }
}

} // verus!
