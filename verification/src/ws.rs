//! The WebSocket subsystem's decision core: the connection registry, the
//! reader task's frame-to-event mapping, and the dispatcher that hands
//! events to host callbacks with a close latch. The frames themselves are
//! read outside this crate; given the same frames, the functions here
//! produce the exact callback sequence, proved below: message callbacks
//! mirror the Text and Binary frames in order, and at most one close
//! callback is ever delivered per connection.

use vstd::prelude::*;
use crate::table::IdTable;

verus! {

/// The registry of open connections. The write half of each connection is
/// held outside this crate under the same id.
pub struct WsRegistry {
    live: IdTable<()>,
    next_id: u64,
}

impl WsRegistry {
    pub closed spec fn wf(&self) -> bool {
        &&& self.live.wf()
        &&& self.next_id >= 1
        &&& forall|k: u64| #[trigger] self.live@.dom().contains(k) ==> k < self.next_id
    }

    /// The ids of open connections.
    pub closed spec fn ids(&self) -> Set<u64> {
        self.live@.dom()
    }

    /// The id the next stored connection receives.
    pub closed spec fn spec_next(&self) -> u64 {
        self.next_id
    }

    pub fn new() -> (r: Self)
        ensures
            r.wf(),
            r.ids() == Set::<u64>::empty(),
            r.spec_next() == 1u64,
    {
        let r = WsRegistry { live: IdTable::new(), next_id: 1 };
        proof {
            assert(r.ids() =~= Set::<u64>::empty());
        }
        r
    }

    /// Store a fresh connection and return its id; ids are monotonic and
    /// never reused.
    pub fn store_connection(&mut self) -> (id: u64)
        requires
            old(self).wf(),
            old(self).spec_next() < u64::MAX,
        ensures
            final(self).wf(),
            id == old(self).spec_next(),
            !old(self).ids().contains(id),
            final(self).ids() == old(self).ids().insert(id),
            final(self).spec_next() == old(self).spec_next() + 1,
    {
        let id = self.next_id;
        self.next_id = self.next_id + 1;
        self.live.insert(id, ());
        proof {
            assert(self.ids() =~= old(self).ids().insert(id));
        }
        id
    }

    /// Is a connection with this id open?
    pub fn get_connection(&self, id: u64) -> (r: bool)
        requires
            self.wf(),
        ensures
            r == self.ids().contains(id),
    {
        self.live.contains(id)
    }

    /// Remove a connection; unknown ids are a no-op.
    pub fn remove_connection(&mut self, id: u64)
        requires
            old(self).wf(),
        ensures
            final(self).wf(),
            final(self).ids() == old(self).ids().remove(id),
            final(self).spec_next() == old(self).spec_next(),
    {
        self.live.remove(id);
        proof {
            assert(self.ids() =~= old(self).ids().remove(id));
        }
    }
}

/// One read off the wire: a data frame, a close frame, a control frame
/// (ping or pong, handled by the transport), or a receive failure.
#[derive(Debug)]
pub enum WsRead {
    Text(String),
    Binary(Vec<u8>),
    CloseFrame,
    Control,
    Failed(String),
}

/// One event flowing from the reader task to the dispatcher.
#[derive(Debug)]
pub enum WsEvent {
    Text(String),
    Binary(Vec<u8>),
    Close,
    Error(String),
}

/// One invocation of a host callback.
#[derive(Debug)]
pub enum HostCallback {
    MessageText(String),
    MessageBinary(Vec<u8>),
    ErrorCb(String),
    CloseCb,
}

/// The events one read emits: data frames pass through, control frames
/// are elided, a close frame emits a close, and a failure emits the error
/// followed by a close.
pub open spec fn reader_step_events(read: WsRead) -> Seq<WsEvent> {
    match read {
        WsRead::Text(t) => seq![WsEvent::Text(t)],
        WsRead::Binary(b) => seq![WsEvent::Binary(b)],
        WsRead::CloseFrame => seq![WsEvent::Close],
        WsRead::Control => Seq::empty(),
        WsRead::Failed(m) => seq![WsEvent::Error(m), WsEvent::Close],
    }
}

/// Whether the reader stops after this read.
pub open spec fn reader_terminates(read: WsRead) -> bool {
    read is CloseFrame || read is Failed
}

/// The whole event sequence the reader emits for the reads it makes, with
/// the final close that follows the loop in every case.
pub open spec fn reader_output(reads: Seq<WsRead>) -> Seq<WsEvent>
    decreases reads.len(),
{
    if reads.len() == 0 {
        seq![WsEvent::Close]
    } else if reader_terminates(reads.first()) {
        reader_step_events(reads.first()) + seq![WsEvent::Close]
    } else {
        reader_step_events(reads.first()) + reader_output(reads.drop_first())
    }
}

/// Map one read to the events it emits and whether the reader stops.
pub fn reader_step(read: WsRead) -> (r: (Vec<WsEvent>, bool))
    ensures
        r.0@ == reader_step_events(read),
        r.1 == reader_terminates(read),
{
    match read {
        WsRead::Text(t) => {
            let mut v: Vec<WsEvent> = Vec::new();
            v.push(WsEvent::Text(t));
            proof {
                assert(v@ =~= reader_step_events(read));
            }
            (v, false)
        },
        WsRead::Binary(b) => {
            let mut v: Vec<WsEvent> = Vec::new();
            v.push(WsEvent::Binary(b));
            proof {
                assert(v@ =~= reader_step_events(read));
            }
            (v, false)
        },
        WsRead::CloseFrame => {
            let mut v: Vec<WsEvent> = Vec::new();
            v.push(WsEvent::Close);
            proof {
                assert(v@ =~= reader_step_events(read));
            }
            (v, true)
        },
        WsRead::Control => {
            let v: Vec<WsEvent> = Vec::new();
            proof {
                assert(v@ =~= reader_step_events(read));
            }
            (v, false)
        },
        WsRead::Failed(m) => {
            let mut v: Vec<WsEvent> = Vec::new();
            v.push(WsEvent::Error(m));
            v.push(WsEvent::Close);
            proof {
                assert(v@ =~= reader_step_events(read));
            }
            (v, true)
        },
    }
}

/// One dispatcher step: the latch before the event, the two callback
/// presence flags, and the event, to the latch after it and the callback
/// invoked, if any. Data frames always reach the host; an error reaches
/// it only where an error callback was given; a close reaches it once,
/// and the latch swallows every further close.
pub open spec fn dispatch_step(latch: bool, has_close: bool, has_error: bool, e: WsEvent) -> (
    bool,
    Option<HostCallback>,
) {
    match e {
        WsEvent::Text(t) => (latch, Some(HostCallback::MessageText(t))),
        WsEvent::Binary(b) => (latch, Some(HostCallback::MessageBinary(b))),
        WsEvent::Error(m) => (
            latch,
            if has_error {
                Some(HostCallback::ErrorCb(m))
            } else {
                None
            },
        ),
        WsEvent::Close => (
            true,
            if !latch && has_close {
                Some(HostCallback::CloseCb)
            } else {
                None
            },
        ),
    }
}

/// A callback option as a sequence of zero or one invocations.
pub open spec fn opt_callback(o: Option<HostCallback>) -> Seq<HostCallback> {
    match o {
        Some(c) => seq![c],
        None => Seq::empty(),
    }
}

/// The callbacks the dispatcher delivers for an event sequence, starting
/// from a given latch, including the final close check after the channel
/// closes.
pub open spec fn dispatch_trace(
    latch: bool,
    has_close: bool,
    has_error: bool,
    events: Seq<WsEvent>,
) -> Seq<HostCallback>
    decreases events.len(),
{
    if events.len() == 0 {
        if !latch && has_close {
            seq![HostCallback::CloseCb]
        } else {
            Seq::empty()
        }
    } else {
        let stepped = dispatch_step(latch, has_close, has_error, events.first());
        opt_callback(stepped.1) + dispatch_trace(stepped.0, has_close, has_error,
            events.drop_first())
    }
}

/// The dispatcher: host callback presence and the close latch.
pub struct Dispatcher {
    close_emitted: bool,
    has_on_close: bool,
    has_on_error: bool,
}

impl Dispatcher {
    pub closed spec fn spec_latch(&self) -> bool {
        self.close_emitted
    }

    pub closed spec fn spec_has_on_close(&self) -> bool {
        self.has_on_close
    }

    pub closed spec fn spec_has_on_error(&self) -> bool {
        self.has_on_error
    }

    pub fn new(has_on_close: bool, has_on_error: bool) -> (r: Self)
        ensures
            r.spec_latch() == false,
            r.spec_has_on_close() == has_on_close,
            r.spec_has_on_error() == has_on_error,
    {
        Dispatcher { close_emitted: false, has_on_close, has_on_error }
    }

    /// Dispatch one event.
    pub fn dispatch(&mut self, e: WsEvent) -> (r: Option<HostCallback>)
        ensures
            final(self).spec_has_on_close() == old(self).spec_has_on_close(),
            final(self).spec_has_on_error() == old(self).spec_has_on_error(),
            (final(self).spec_latch(), r) == dispatch_step(
                old(self).spec_latch(),
                old(self).spec_has_on_close(),
                old(self).spec_has_on_error(),
                e,
            ),
    {
        match e {
            WsEvent::Text(t) => Some(HostCallback::MessageText(t)),
            WsEvent::Binary(b) => Some(HostCallback::MessageBinary(b)),
            WsEvent::Error(m) => {
                if self.has_on_error {
                    Some(HostCallback::ErrorCb(m))
                } else {
                    None
                }
            },
            WsEvent::Close => {
                let was = self.close_emitted;
                self.close_emitted = true;
                if !was && self.has_on_close {
                    Some(HostCallback::CloseCb)
                } else {
                    None
                }
            },
        }
    }

    /// The final close check once the event channel has closed.
    pub fn finish(&mut self) -> (r: Option<HostCallback>)
        ensures
            final(self).spec_latch(),
            r == (if !old(self).spec_latch() && old(self).spec_has_on_close() {
                Some(HostCallback::CloseCb)
            } else {
                None::<HostCallback>
            }),
    {
        let was = self.close_emitted;
        self.close_emitted = true;
        if !was && self.has_on_close {
            Some(HostCallback::CloseCb)
        } else {
            None
        }
    }
}

/// How many close callbacks a callback sequence holds.
pub open spec fn close_count(cbs: Seq<HostCallback>) -> int
    decreases cbs.len(),
{
    if cbs.len() == 0 {
        0
    } else {
        (if cbs.first() is CloseCb {
            1int
        } else {
            0int
        }) + close_count(cbs.drop_first())
    }
}

/// At most one close callback is ever delivered per connection, whatever
/// events flow through the dispatcher; once the latch is set, none at all.
pub proof fn lemma_close_idempotent(
    latch: bool,
    has_close: bool,
    has_error: bool,
    events: Seq<WsEvent>,
)
    ensures
        close_count(dispatch_trace(latch, has_close, has_error, events)) <= 1,
        latch ==> close_count(dispatch_trace(latch, has_close, has_error, events)) == 0,
    decreases events.len(),
{
    if events.len() == 0 {
        let t = dispatch_trace(latch, has_close, has_error, events);
        if !latch && has_close {
            assert(t.drop_first() =~= Seq::<HostCallback>::empty());
            assert(close_count(t.drop_first()) == 0);
            assert(close_count(t) == 1);
        } else {
            assert(close_count(t) == 0);
        }
    } else {
        let stepped = dispatch_step(latch, has_close, has_error, events.first());
        let rest = dispatch_trace(stepped.0, has_close, has_error, events.drop_first());
        lemma_close_idempotent(stepped.0, has_close, has_error, events.drop_first());
        let whole = opt_callback(stepped.1) + rest;
        assert(dispatch_trace(latch, has_close, has_error, events) == whole);
        match stepped.1 {
            Some(c) => {
                assert(whole.first() == c);
                assert(whole.drop_first() =~= rest);
                assert(close_count(whole) == (if c is CloseCb {
                    1int
                } else {
                    0int
                }) + close_count(rest));
                if c is CloseCb {
                    assert(stepped.0);
                }
            },
            None => {
                assert(whole =~= rest);
            },
        }
        assert(close_count(whole) <= 1);
        assert(latch ==> close_count(whole) == 0);
    }
}

/// The message callbacks within a callback sequence, in order.
pub open spec fn messages_of(cbs: Seq<HostCallback>) -> Seq<HostCallback>
    decreases cbs.len(),
{
    if cbs.len() == 0 {
        Seq::empty()
    } else if cbs.first() is MessageText || cbs.first() is MessageBinary {
        seq![cbs.first()] + messages_of(cbs.drop_first())
    } else {
        messages_of(cbs.drop_first())
    }
}

/// The message callbacks the host must see for the frames the reader
/// received: the Text and Binary frames up to termination, in order, with
/// control frames elided.
pub open spec fn expected_messages(reads: Seq<WsRead>) -> Seq<HostCallback>
    decreases reads.len(),
{
    if reads.len() == 0 {
        Seq::empty()
    } else {
        match reads.first() {
            WsRead::Text(t) => seq![HostCallback::MessageText(t)] + expected_messages(
                reads.drop_first(),
            ),
            WsRead::Binary(b) => seq![HostCallback::MessageBinary(b)] + expected_messages(
                reads.drop_first(),
            ),
            WsRead::Control => expected_messages(reads.drop_first()),
            WsRead::CloseFrame => Seq::empty(),
            WsRead::Failed(_) => Seq::empty(),
        }
    }
}

proof fn lemma_messages_of_cons(c: HostCallback, rest: Seq<HostCallback>)
    ensures
        (c is MessageText || c is MessageBinary) ==> messages_of(seq![c] + rest) == seq![c]
            + messages_of(rest),
        !(c is MessageText || c is MessageBinary) ==> messages_of(seq![c] + rest) == messages_of(
            rest,
        ),
{
    let whole = seq![c] + rest;
    assert(whole.first() == c);
    assert(whole.drop_first() =~= rest);
}

/// The sequence of message callbacks the dispatcher delivers equals the
/// sequence of Text and Binary frames the reader received, in order —
/// whatever the latch state and whichever optional callbacks exist.
pub proof fn lemma_message_order_preserved(
    latch: bool,
    has_close: bool,
    has_error: bool,
    reads: Seq<WsRead>,
)
    ensures
        messages_of(dispatch_trace(latch, has_close, has_error, reader_output(reads)))
            == expected_messages(reads),
    decreases reads.len(),
{
    let output = reader_output(reads);
    if reads.len() == 0 {
        assert(output =~= seq![WsEvent::Close]);
        let stepped = dispatch_step(latch, has_close, has_error, WsEvent::Close);
        assert(output.drop_first() =~= Seq::<WsEvent>::empty());
        let tail = dispatch_trace(stepped.0, has_close, has_error, Seq::empty());
        lemma_messages_of_all_nonmessage(tail);
        match stepped.1 {
            Some(c) => {
                lemma_messages_of_cons(c, tail);
            },
            None => {
                assert(opt_callback(stepped.1) + tail =~= tail);
            },
        }
        assert(expected_messages(reads) =~= Seq::<HostCallback>::empty());
    } else {
        let head = reads.first();
        let rest = reads.drop_first();
        match head {
            WsRead::Text(t) => {
                assert(output.first() == WsEvent::Text(t));
                assert(output.drop_first() =~= reader_output(rest));
                let stepped = dispatch_step(latch, has_close, has_error, WsEvent::Text(t));
                let tail = dispatch_trace(latch, has_close, has_error, reader_output(rest));
                lemma_message_order_preserved(latch, has_close, has_error, rest);
                lemma_messages_of_cons(HostCallback::MessageText(t), tail);
                assert(messages_of(dispatch_trace(latch, has_close, has_error, output))
                    == seq![HostCallback::MessageText(t)] + expected_messages(rest));
            },
            WsRead::Binary(b) => {
                assert(output.first() == WsEvent::Binary(b));
                assert(output.drop_first() =~= reader_output(rest));
                let tail = dispatch_trace(latch, has_close, has_error, reader_output(rest));
                lemma_message_order_preserved(latch, has_close, has_error, rest);
                lemma_messages_of_cons(HostCallback::MessageBinary(b), tail);
            },
            WsRead::Control => {
                assert(output =~= reader_output(rest));
                lemma_message_order_preserved(latch, has_close, has_error, rest);
                assert(expected_messages(reads) =~= expected_messages(rest));
            },
            WsRead::CloseFrame => {
                assert(output =~= seq![WsEvent::Close, WsEvent::Close]);
                lemma_trace_all_nonmessage_closes(latch, has_close, has_error, output);
                assert(expected_messages(reads) =~= Seq::<HostCallback>::empty());
            },
            WsRead::Failed(m) => {
                assert(output =~= seq![WsEvent::Error(m), WsEvent::Close, WsEvent::Close]);
                lemma_trace_all_nonmessage_closes(latch, has_close, has_error, output);
                assert(expected_messages(reads) =~= Seq::<HostCallback>::empty());
            },
        }
    }
}

/// A sequence of close and error events alone produces no message
/// callbacks.
proof fn lemma_trace_all_nonmessage_closes(
    latch: bool,
    has_close: bool,
    has_error: bool,
    events: Seq<WsEvent>,
)
    requires
        forall|i: int| 0 <= i < events.len() ==> !((#[trigger] events[i]) is Text || events[i]
            is Binary),
    ensures
        messages_of(dispatch_trace(latch, has_close, has_error, events)) == Seq::<
            HostCallback,
        >::empty(),
    decreases events.len(),
{
    if events.len() == 0 {
        let trace = dispatch_trace(latch, has_close, has_error, events);
        lemma_messages_of_all_nonmessage(trace);
    } else {
        let stepped = dispatch_step(latch, has_close, has_error, events.first());
        assert(!(events[0] is Text || events[0] is Binary));
        lemma_trace_all_nonmessage_closes(stepped.0, has_close, has_error, events.drop_first());
        let tail = dispatch_trace(stepped.0, has_close, has_error, events.drop_first());
        match stepped.1 {
            Some(c) => {
                assert(!(c is MessageText || c is MessageBinary));
                lemma_messages_of_cons(c, tail);
            },
            None => {
                assert(opt_callback(stepped.1) + tail =~= tail);
            },
        }
    }
}

/// A callback sequence without message callbacks yields no messages.
proof fn lemma_messages_of_all_nonmessage(cbs: Seq<HostCallback>)
    requires
        forall|i: int| 0 <= i < cbs.len() ==> !((#[trigger] cbs[i]) is MessageText || cbs[i]
            is MessageBinary),
    ensures
        messages_of(cbs) == Seq::<HostCallback>::empty(),
    decreases cbs.len(),
{
    if cbs.len() == 0 {
    } else {
        assert(!(cbs[0] is MessageText || cbs[0] is MessageBinary));
        lemma_messages_of_all_nonmessage(cbs.drop_first());
    }
}

} // verus!
