//! The connection driver: what the loop that owns the socket does with each
//! thing that happens to it. The driver holds no socket and no channel. Its
//! caller waits for the keepalive timer, the outbound queue and the socket,
//! hands each event to `step`, and carries out the action that comes back.

use vstd::prelude::*;
use vstd::utf8::{decode_utf8, encode_utf8_decode_utf8, valid_utf8};
use crate::json::text_of_bytes;
use crate::protocol::{
    message_of_text, outgoing_text, MessageView, OutgoingView, ProtocolError, WitchcraftMessage,
    WitchcraftOutgoingMessage,
};

verus! {

/// The time between two heartbeats, in milliseconds.
pub const KEEPALIVE_INTERVAL_MS: u64 = 30_000;

/// The kind of a socket frame.
#[derive(Debug, Clone, Copy, PartialEq, Eq, Structural)]
pub enum OpCode {
    Continuation,
    Text,
    Binary,
    Close,
    Ping,
    Pong,
}

/// A frame as it came from the socket.
#[derive(Debug, PartialEq, Eq)]
pub struct Frame {
    pub opcode: OpCode,
    pub payload: Vec<u8>,
}

/// Why the driver ended.
#[derive(Debug, Clone, Copy, PartialEq, Eq, Structural)]
pub enum StopReason {
    /// A frame could not be sent.
    SendFailed,
    /// Every handle of the outbound queue is gone, and the queue is empty.
    SendersDropped,
    /// Nobody reads the inbound stream any more.
    ConsumerDropped,
    /// The peer sent a close frame.
    ClosedByPeer,
    /// The socket ended without a close frame.
    StreamEnded,
}

/// What the driver saw and let pass.
#[derive(Debug, Clone, Copy, PartialEq, Eq, Structural)]
pub enum Notice {
    /// The timer fired before the interval was over.
    KeepaliveNotDue,
    /// An outbound message could not be written as JSON, and was dropped.
    SerializationFailed,
    /// A text frame that is not UTF-8.
    NotUtf8,
    /// A text frame that is no message of the protocol.
    Undecodable(ProtocolError),
    /// A ping of the transport.
    TransportPing,
    /// A pong of the transport.
    TransportPong,
    /// A binary or continuation frame.
    UnusedFrame,
}

/// What happened.
#[derive(Debug, PartialEq, Eq)]
pub enum DriverEvent {
    /// The keepalive timer fired, at `now_ms` on the caller's clock.
    Timer { now_ms: u64 },
    /// The outbound queue handed out its next message.
    Outgoing(WitchcraftOutgoingMessage),
    /// The outbound queue is empty and has no sender left.
    SendersDropped,
    /// The socket handed out a frame.
    Frame(Frame),
    /// The socket has no more frames.
    StreamEnded,
    /// The frame of the last `Send` could not be sent.
    SendFailed,
    /// The message of the last `Deliver` found no consumer.
    ConsumerDropped,
}

/// What the caller is to do.
#[derive(Debug, PartialEq, Eq)]
pub enum DriverAction {
    /// Send a text frame with this payload.
    Send(String),
    /// Put this message on the inbound stream.
    Deliver(WitchcraftMessage),
    /// Nothing; the notice may be logged.
    Continue(Notice),
    /// Leave the loop.
    Stop(StopReason),
}

/// An event as a mathematical value.
pub enum EventView {
    Timer { now_ms: u64 },
    Outgoing(OutgoingView),
    SendersDropped,
    Frame { opcode: OpCode, payload: Seq<u8> },
    StreamEnded,
    SendFailed,
    ConsumerDropped,
}

/// An action as a mathematical value.
pub enum ActionView {
    Send(Seq<char>),
    Deliver(MessageView),
    Continue(Notice),
    Stop(StopReason),
}

/// The driver as a mathematical value: whether it ended and why, and the
/// time from which the keepalive interval runs.
pub struct DriverState {
    pub stopped: Option<StopReason>,
    pub keepalive_from_ms: u64,
}

impl View for DriverEvent {
    type V = EventView;

    open spec fn view(&self) -> EventView {
        match *self {
            DriverEvent::Timer { now_ms } => EventView::Timer { now_ms },
            DriverEvent::Outgoing(msg) => EventView::Outgoing(msg@),
            DriverEvent::SendersDropped => EventView::SendersDropped,
            DriverEvent::Frame(frame) => EventView::Frame {
                opcode: frame.opcode,
                payload: frame.payload@,
            },
            DriverEvent::StreamEnded => EventView::StreamEnded,
            DriverEvent::SendFailed => EventView::SendFailed,
            DriverEvent::ConsumerDropped => EventView::ConsumerDropped,
        }
    }
}

impl View for DriverAction {
    type V = ActionView;

    open spec fn view(&self) -> ActionView {
        match *self {
            DriverAction::Send(text) => ActionView::Send(text@),
            DriverAction::Deliver(message) => ActionView::Deliver(message@),
            DriverAction::Continue(notice) => ActionView::Continue(notice),
            DriverAction::Stop(reason) => ActionView::Stop(reason),
        }
    }
}

/// Whether a heartbeat is due at `now_ms`: the interval has passed since the
/// time it runs from.
pub open spec fn keepalive_due(state: DriverState, now_ms: u64) -> bool {
    now_ms - state.keepalive_from_ms >= KEEPALIVE_INTERVAL_MS
}

/// The milliseconds left at `now_ms` until a heartbeat is due; the whole
/// interval where the clock stands before the time the interval runs from.
pub open spec fn keepalive_remaining(state: DriverState, now_ms: u64) -> int {
    if now_ms <= state.keepalive_from_ms {
        KEEPALIVE_INTERVAL_MS as int
    } else if keepalive_due(state, now_ms) {
        0
    } else {
        KEEPALIVE_INTERVAL_MS - (now_ms - state.keepalive_from_ms)
    }
}

/// What a frame from the socket calls for. A text frame that carries a
/// message has it delivered; one that does not is let pass. A close frame
/// ends the driver. The transport's own frames are let pass.
pub open spec fn frame_action(opcode: OpCode, payload: Seq<u8>) -> ActionView {
    match opcode {
        OpCode::Text => if !valid_utf8(payload) {
            ActionView::Continue(Notice::NotUtf8)
        } else {
            match message_of_text(decode_utf8(payload)) {
                Ok(message) => ActionView::Deliver(message),
                Err(e) => ActionView::Continue(Notice::Undecodable(e)),
            }
        },
        OpCode::Close => ActionView::Stop(StopReason::ClosedByPeer),
        OpCode::Ping => ActionView::Continue(Notice::TransportPing),
        OpCode::Pong => ActionView::Continue(Notice::TransportPong),
        OpCode::Binary => ActionView::Continue(Notice::UnusedFrame),
        OpCode::Continuation => ActionView::Continue(Notice::UnusedFrame),
    }
}

/// The action with which the driver answers an event. Once it has ended it
/// answers every event with the reason it ended for.
pub open spec fn action_of(state: DriverState, event: EventView) -> ActionView {
    match state.stopped {
        Some(reason) => ActionView::Stop(reason),
        None => match event {
            EventView::Timer { now_ms } => if keepalive_due(state, now_ms) {
                ActionView::Send(outgoing_text(OutgoingView::Ping))
            } else {
                ActionView::Continue(Notice::KeepaliveNotDue)
            },
            EventView::Outgoing(msg) => ActionView::Send(outgoing_text(msg)),
            EventView::SendersDropped => ActionView::Stop(StopReason::SendersDropped),
            EventView::Frame { opcode, payload } => frame_action(opcode, payload),
            EventView::StreamEnded => ActionView::Stop(StopReason::StreamEnded),
            EventView::SendFailed => ActionView::Stop(StopReason::SendFailed),
            EventView::ConsumerDropped => ActionView::Stop(StopReason::ConsumerDropped),
        },
    }
}

/// The driver after an event. It ends where the action is `Stop`; a
/// heartbeat restarts the keepalive interval at the time of the timer event;
/// nothing else changes it.
pub open spec fn next_state(state: DriverState, event: EventView) -> DriverState {
    match action_of(state, event) {
        ActionView::Stop(reason) => DriverState { stopped: Some(reason), ..state },
        ActionView::Send(_) => match event {
            EventView::Timer { now_ms } => DriverState { keepalive_from_ms: now_ms, ..state },
            _ => state,
        },
        _ => state,
    }
}

/// The driver after a run of events, taken in order.
pub open spec fn run_state(state: DriverState, events: Seq<EventView>) -> DriverState
    decreases events.len(),
{
    if events.len() == 0 {
        state
    } else {
        next_state(run_state(state, events.drop_last()), events.last())
    }
}

/// The actions of a run of events: one for each event that finds the driver
/// running, in the order of the events. Events that come after the driver
/// has ended get none.
pub open spec fn run_actions(state: DriverState, events: Seq<EventView>) -> Seq<ActionView>
    decreases events.len(),
{
    if events.len() == 0 {
        Seq::empty()
    } else {
        let before = run_state(state, events.drop_last());
        let earlier = run_actions(state, events.drop_last());
        if before.stopped is Some {
            earlier
        } else {
            earlier.push(action_of(before, events.last()))
        }
    }
}

/// The events of a list, each as a mathematical value.
pub open spec fn event_views(events: Seq<DriverEvent>) -> Seq<EventView> {
    events.map_values(|e: DriverEvent| e@)
}

/// The actions of a list, each as a mathematical value.
pub open spec fn action_views(actions: Seq<DriverAction>) -> Seq<ActionView> {
    actions.map_values(|a: DriverAction| a@)
}

/// The events with which the outbound queue hands out `msgs`, one by one.
pub open spec fn outgoing_events(msgs: Seq<OutgoingView>) -> Seq<EventView> {
    msgs.map_values(|m: OutgoingView| EventView::Outgoing(m))
}

/// The actions that send the frames of `msgs`, one by one.
pub open spec fn send_actions(msgs: Seq<OutgoingView>) -> Seq<ActionView> {
    msgs.map_values(|m: OutgoingView| ActionView::Send(outgoing_text(m)))
}

/// The driver of one connection.
#[derive(Debug, PartialEq, Eq)]
pub struct ConnectionDriver {
    stopped: Option<StopReason>,
    keepalive_from_ms: u64,
}

impl View for ConnectionDriver {
    type V = DriverState;

    closed spec fn view(&self) -> DriverState {
        DriverState { stopped: self.stopped, keepalive_from_ms: self.keepalive_from_ms }
    }
}

impl ConnectionDriver {
    /// A running driver whose keepalive interval starts at `now_ms`.
    pub fn new(now_ms: u64) -> (driver: ConnectionDriver)
        ensures
            driver@ == (DriverState { stopped: None, keepalive_from_ms: now_ms }),
    {
        ConnectionDriver { stopped: None, keepalive_from_ms: now_ms }
    }

    /// Why the driver ended, if it has.
    pub fn stopped(&self) -> (r: Option<StopReason>)
        ensures
            r == self@.stopped,
    {
        self.stopped
    }

    /// Whether the driver still runs.
    pub fn is_running(&self) -> (r: bool)
        ensures
            r == (self@.stopped is None),
    {
        self.stopped.is_none()
    }

    /// The milliseconds from `now_ms` until the next heartbeat is due.
    pub fn keepalive_remaining(&self, now_ms: u64) -> (r: u64)
        ensures
            r == keepalive_remaining(self@, now_ms),
            r == 0 <==> keepalive_due(self@, now_ms),
    {
        if now_ms <= self.keepalive_from_ms {
            KEEPALIVE_INTERVAL_MS
        } else if now_ms - self.keepalive_from_ms >= KEEPALIVE_INTERVAL_MS {
            0
        } else {
            KEEPALIVE_INTERVAL_MS - (now_ms - self.keepalive_from_ms)
        }
    }

    /// What a frame from the socket calls for.
    pub fn on_frame(frame: &Frame) -> (action: DriverAction)
        ensures
            action@ == frame_action(frame.opcode, frame.payload@),
    {
        match frame.opcode {
            OpCode::Text => match text_of_bytes(frame.payload.as_slice()) {
                Some(text) => {
                    proof {
                        encode_utf8_decode_utf8(text@);
                    }
                    match WitchcraftMessage::decode(text) {
                        Ok(message) => DriverAction::Deliver(message),
                        Err(e) => DriverAction::Continue(Notice::Undecodable(e)),
                    }
                },
                None => DriverAction::Continue(Notice::NotUtf8),
            },
            OpCode::Close => DriverAction::Stop(StopReason::ClosedByPeer),
            OpCode::Ping => DriverAction::Continue(Notice::TransportPing),
            OpCode::Pong => DriverAction::Continue(Notice::TransportPong),
            OpCode::Binary => DriverAction::Continue(Notice::UnusedFrame),
            OpCode::Continuation => DriverAction::Continue(Notice::UnusedFrame),
        }
    }

    /// Takes one event and says what to do about it.
    pub fn step(&mut self, event: &DriverEvent) -> (action: DriverAction)
        ensures
            action@ == action_of(old(self)@, event@),
            final(self)@ == next_state(old(self)@, event@),
    {
        if let Some(reason) = self.stopped {
            return DriverAction::Stop(reason);
        }
        let action = match event {
            DriverEvent::Timer { now_ms } => {
                if *now_ms >= self.keepalive_from_ms && *now_ms - self.keepalive_from_ms
                    >= KEEPALIVE_INTERVAL_MS {
                    match WitchcraftOutgoingMessage::Ping.encode() {
                        Ok(text) => {
                            self.keepalive_from_ms = *now_ms;
                            DriverAction::Send(text)
                        },
                        Err(_) => DriverAction::Continue(Notice::SerializationFailed),
                    }
                } else {
                    DriverAction::Continue(Notice::KeepaliveNotDue)
                }
            },
            DriverEvent::Outgoing(msg) => match msg.encode() {
                Ok(text) => DriverAction::Send(text),
                Err(_) => DriverAction::Continue(Notice::SerializationFailed),
            },
            DriverEvent::SendersDropped => DriverAction::Stop(StopReason::SendersDropped),
            DriverEvent::Frame(frame) => ConnectionDriver::on_frame(frame),
            DriverEvent::StreamEnded => DriverAction::Stop(StopReason::StreamEnded),
            DriverEvent::SendFailed => DriverAction::Stop(StopReason::SendFailed),
            DriverEvent::ConsumerDropped => DriverAction::Stop(StopReason::ConsumerDropped),
        };
        if let DriverAction::Stop(reason) = &action {
            self.stopped = Some(*reason);
        }
        action
    }

    /// Takes a run of events in order, and gives the actions to carry out.
    /// Events that come after the driver has ended are passed over.
    pub fn run(&mut self, events: &Vec<DriverEvent>) -> (actions: Vec<DriverAction>)
        ensures
            action_views(actions@) == run_actions(old(self)@, event_views(events@)),
            final(self)@ == run_state(old(self)@, event_views(events@)),
    {
        let ghost start = self@;
        let ghost all = event_views(events@);
        let mut actions: Vec<DriverAction> = Vec::new();
        let mut i: usize = 0;
        assert(action_views(actions@) =~= Seq::<ActionView>::empty());
        while i < events.len()
            invariant
                i <= events.len(),
                all == event_views(events@),
                action_views(actions@) == run_actions(start, all.take(i as int)),
                self@ == run_state(start, all.take(i as int)),
            decreases events.len() - i,
        {
            let ghost earlier = action_views(actions@);
            let ghost before = self@;
            assert(all.take(i as int + 1).drop_last() =~= all.take(i as int));
            assert(all.take(i as int + 1).last() == events@[i as int]@);
            if self.stopped.is_none() {
                let action = self.step(&events[i]);
                actions.push(action);
                assert(action_views(actions@) =~= earlier.push(action@));
            }
            i = i + 1;
        }
        assert(all.take(i as int) =~= all);
        actions
    }
}

/// A driver that has ended stays as it is, and a run of events draws no
/// action from it.
pub proof fn stopped_driver_is_final(state: DriverState, events: Seq<EventView>)
    requires
        state.stopped is Some,
    ensures
        run_state(state, events) == state,
        run_actions(state, events) == Seq::<ActionView>::empty(),
    decreases events.len(),
{
    if events.len() > 0 {
        stopped_driver_is_final(state, events.drop_last());
    }
}

/// A run of one event is one step.
pub proof fn run_of_one_event(state: DriverState, event: EventView)
    requires
        state.stopped is None,
    ensures
        run_state(state, seq![event]) == next_state(state, event),
        run_actions(state, seq![event]) == seq![action_of(state, event)],
{
    let one = seq![event];
    assert(one.drop_last() =~= Seq::<EventView>::empty());
    assert(run_state(state, one.drop_last()) == state);
    assert(run_actions(state, one.drop_last()) =~= Seq::<ActionView>::empty());
    assert(run_actions(state, one) =~= seq![action_of(state, event)]);
}

/// A run of two lists of events, one after the other, is the run of the
/// first followed by the run of the second from where the first left the
/// driver.
pub proof fn run_in_two_parts(state: DriverState, first: Seq<EventView>, second: Seq<EventView>)
    ensures
        run_state(state, first + second) == run_state(run_state(state, first), second),
        run_actions(state, first + second) == run_actions(state, first) + run_actions(
            run_state(state, first),
            second,
        ),
    decreases second.len(),
{
    if second.len() == 0 {
        assert(first + second =~= first);
        assert(run_actions(state, first) + Seq::<ActionView>::empty() =~= run_actions(
            state,
            first,
        ));
    } else {
        run_in_two_parts(state, first, second.drop_last());
        assert((first + second).drop_last() =~= first + second.drop_last());
        assert((first + second).last() == second.last());
        let middle = run_state(state, first);
        let before = run_state(middle, second.drop_last());
        if before.stopped is Some {
        } else {
            assert(run_actions(state, first + second) =~= run_actions(state, first)
                + run_actions(middle, second));
        }
    }
}

/// Outbound messages leave in the order in which the queue hands them out:
/// while the driver runs, each is answered by the sending of its own frame,
/// and the driver is left as it was.
pub proof fn outgoing_frames_keep_their_order(state: DriverState, msgs: Seq<OutgoingView>)
    requires
        state.stopped is None,
    ensures
        run_actions(state, outgoing_events(msgs)) == send_actions(msgs),
        run_state(state, outgoing_events(msgs)) == state,
    decreases msgs.len(),
{
    if msgs.len() == 0 {
        assert(send_actions(msgs) =~= Seq::<ActionView>::empty());
    } else {
        outgoing_frames_keep_their_order(state, msgs.drop_last());
        assert(outgoing_events(msgs).drop_last() =~= outgoing_events(msgs.drop_last()));
        assert(outgoing_events(msgs).last() == EventView::Outgoing(msgs.last()));
        assert(send_actions(msgs) =~= send_actions(msgs.drop_last()).push(
            ActionView::Send(outgoing_text(msgs.last())),
        ));
    }
}

/// Whatever else happens in between, a run that leaves the driver running
/// has answered every event, and every outbound message among them with the
/// sending of its own frame, at the same place in the order.
pub proof fn running_driver_answers_each_event(state: DriverState, events: Seq<EventView>)
    requires
        run_state(state, events).stopped is None,
    ensures
        run_actions(state, events).len() == events.len(),
        forall|i: int|
            0 <= i < events.len() && (#[trigger] events[i]) is Outgoing ==> run_actions(
                state,
                events,
            )[i] == ActionView::Send(outgoing_text(events[i]->Outgoing_0)),
    decreases events.len(),
{
    if events.len() > 0 {
        let before = run_state(state, events.drop_last());
        if before.stopped is Some {
            assert(next_state(before, events.last()) == before);
        }
        running_driver_answers_each_event(state, events.drop_last());
        assert forall|i: int| 0 <= i < events.len() && (#[trigger] events[i]) is Outgoing implies
            run_actions(state, events)[i] == ActionView::Send(
            outgoing_text(events[i]->Outgoing_0),
        ) by {
            if i < events.len() - 1 {
                assert(events.drop_last()[i] == events[i]);
            }
        }
    }
}

/// The keepalive clock: only a heartbeat moves it, to the time of the
/// timer event that sent it, and the next heartbeat is due no sooner than a
/// full interval after that.
pub proof fn heartbeats_are_an_interval_apart(state: DriverState, event: EventView, later_ms: u64)
    requires
        state.stopped is None,
    ensures
        !(action_of(state, event) is Send && event is Timer) ==> next_state(
            state,
            event,
        ).keepalive_from_ms == state.keepalive_from_ms,
        action_of(state, event) is Send && event is Timer ==> {
            &&& event->now_ms - state.keepalive_from_ms >= KEEPALIVE_INTERVAL_MS
            &&& next_state(state, event).keepalive_from_ms == event->now_ms
            &&& (keepalive_due(next_state(state, event), later_ms) ==> later_ms - event->now_ms
                >= KEEPALIVE_INTERVAL_MS)
        },
{
}

/// A text frame never ends the driver, whatever it carries: the driver is
/// after it as it was before, so that what comes next is answered as if the
/// frame had not come. A malformed frame followed by one that carries a
/// message has the message delivered.
pub proof fn text_frame_never_ends_the_stream(
    state: DriverState,
    payload: Seq<u8>,
    next: Seq<u8>,
)
    requires
        state.stopped is None,
    ensures
        next_state(state, EventView::Frame { opcode: OpCode::Text, payload }) == state,
        !(frame_action(OpCode::Text, payload) is Stop),
        run_actions(
            state,
            seq![
                EventView::Frame { opcode: OpCode::Text, payload },
                EventView::Frame { opcode: OpCode::Text, payload: next },
            ],
        ) == seq![frame_action(OpCode::Text, payload), frame_action(OpCode::Text, next)],
        valid_utf8(next) && message_of_text(decode_utf8(next)) is Ok ==> frame_action(
            OpCode::Text,
            next,
        ) == ActionView::Deliver(message_of_text(decode_utf8(next))->Ok_0),
{
    let bad = EventView::Frame { opcode: OpCode::Text, payload };
    let good = EventView::Frame { opcode: OpCode::Text, payload: next };
    let one = seq![bad];
    let two = seq![bad, good];
    run_of_one_event(state, bad);
    assert(two.drop_last() =~= one);
    assert(run_actions(state, two) =~= seq![
        frame_action(OpCode::Text, payload),
        frame_action(OpCode::Text, next),
    ]);
}

/// A close frame from the peer ends the driver: it is answered with `Stop`,
/// and nothing that comes after it is answered at all, so that no message is
/// delivered any more.
pub proof fn close_frame_ends_the_driver(
    state: DriverState,
    payload: Seq<u8>,
    later: Seq<EventView>,
)
    requires
        state.stopped is None,
    ensures
        run_actions(state, seq![EventView::Frame { opcode: OpCode::Close, payload }] + later)
            == seq![ActionView::Stop(StopReason::ClosedByPeer)],
        run_state(
            state,
            seq![EventView::Frame { opcode: OpCode::Close, payload }] + later,
        ).stopped == Some(StopReason::ClosedByPeer),
{
    let close = seq![EventView::Frame { opcode: OpCode::Close, payload }];
    run_of_one_event(state, close[0]);
    assert(close =~= seq![close[0]]);
    run_in_two_parts(state, close, later);
    stopped_driver_is_final(run_state(state, close), later);
    assert(run_actions(state, close) + Seq::<ActionView>::empty() =~= run_actions(state, close));
}

/// When the last sender of the outbound queue is dropped with messages
/// still queued, the driver sends every one of them, in order, and then ends;
/// it does so whether or not the inbound stream still has a consumer, and
/// answers nothing that comes later.
pub proof fn dropped_senders_end_the_driver_after_the_flush(
    state: DriverState,
    queued: Seq<OutgoingView>,
    later: Seq<EventView>,
)
    requires
        state.stopped is None,
    ensures
        run_actions(state, outgoing_events(queued) + seq![EventView::SendersDropped] + later)
            == send_actions(queued).push(ActionView::Stop(StopReason::SendersDropped)),
        run_state(
            state,
            outgoing_events(queued) + seq![EventView::SendersDropped] + later,
        ).stopped == Some(StopReason::SendersDropped),
{
    let flush = outgoing_events(queued);
    let end = seq![EventView::SendersDropped];
    outgoing_frames_keep_their_order(state, queued);
    run_of_one_event(state, EventView::SendersDropped);
    run_in_two_parts(state, flush, end);
    run_in_two_parts(state, flush + end, later);
    stopped_driver_is_final(run_state(state, flush + end), later);
    assert(run_actions(state, flush + end + later) =~= send_actions(queued).push(
        ActionView::Stop(StopReason::SendersDropped),
    ));
}

} // verus!
