use vstd::prelude::*;
use crate::events::{EventView, TranscriptEventView};
use crate::failure::PushError;
use crate::json::{json_from_str, JsonValue};
use crate::params::SessionParamsView;
use crate::session::{DownlinkStepView, InboundView, PushedView, SessionView, UplinkStepView};
use crate::transcript::{event_of_text, first_alternative, recognition_of};

verus! {

/// One call on the session state, as the contracts see it.
pub enum Op {
    Start(SessionParamsView),
    Stop,
    Push(Seq<u8>),
    NextChunk(u64),
    SendFailed(u64),
    Receive(u64, InboundView),
}

impl Op {
    /// A call that leaves the chunks that wait where they are or moves one on: a push, the
    /// uplink asking for the next chunk, or a stop.
    pub open spec fn keeps_audio(self) -> bool {
        self is Push || self is NextChunk || self is Stop
    }
}

/// `count` requests of the uplink of session `session`, one after the other.
pub open spec fn requests(session: u64, count: nat) -> Seq<Op> {
    Seq::new(count, |i: int| Op::NextChunk(session))
}

impl SessionView {
    /// The state after one call.
    pub open spec fn apply(self, op: Op) -> SessionView {
        match op {
            Op::Start(params) => self.start(params),
            Op::Stop => self.stop(),
            Op::Push(chunk) => self.push(chunk),
            Op::NextChunk(session) => self.after_uplink_step(session),
            Op::SendFailed(session) => self.send_failed(session),
            Op::Receive(session, inbound) => self.after_inbound(session, inbound),
        }
    }

    /// The state after a sequence of calls.
    pub open spec fn run(self, ops: Seq<Op>) -> SessionView
        decreases ops.len(),
    {
        if ops.len() == 0 {
            self
        } else {
            self.run(ops.drop_last()).apply(ops.last())
        }
    }

    /// The chunks that `push` put in the queue in the course of `ops`, in the order of the
    /// calls.
    pub open spec fn queued(self, ops: Seq<Op>) -> Seq<Seq<u8>>
        decreases ops.len(),
    {
        if ops.len() == 0 {
            Seq::empty()
        } else {
            let before = self.run(ops.drop_last());
            let earlier = self.queued(ops.drop_last());
            match ops.last() {
                Op::Push(chunk) => if before.push_result(chunk) == Ok::<PushedView, PushError>(
                    PushedView::Queued,
                ) {
                    earlier.push(chunk)
                } else {
                    earlier
                },
                _ => earlier,
            }
        }
    }

    /// The chunks that the uplink was told to send in the course of `ops`, in the order of
    /// the calls.
    pub open spec fn sent(self, ops: Seq<Op>) -> Seq<Seq<u8>>
        decreases ops.len(),
    {
        if ops.len() == 0 {
            Seq::empty()
        } else {
            let before = self.run(ops.drop_last());
            let earlier = self.sent(ops.drop_last());
            match ops.last() {
                Op::NextChunk(session) => match before.uplink_step(session) {
                    UplinkStepView::Send(chunk) => earlier.push(chunk),
                    _ => earlier,
                },
                _ => earlier,
            }
        }
    }
}

/// Audio leaves in the order in which it came, chunk by chunk. However pushes, stops and
/// the uplink's requests follow one another, the chunks sent, followed by those that still
/// wait, are the chunks that waited at first, followed by those that were queued since.
/// On such a run no chunk that was queued is lost, repeated, merged, split or moved: a
/// stop keeps what waits. (A new start, a failed send and the end of the stream do drop
/// what waits; they are no part of such a run.)
pub proof fn lemma_chunks_keep_order(state: SessionView, ops: Seq<Op>)
    requires
        forall|i: int| 0 <= i < ops.len() ==> (#[trigger] ops[i]).keeps_audio(),
    ensures
        state.sent(ops) + state.run(ops).pending() == state.pending() + state.queued(ops),
        state.run(ops).session == state.session,
    decreases ops.len(),
{
    if ops.len() == 0 {
        assert(state.sent(ops) + state.run(ops).pending() =~= state.pending() + state.queued(ops));
    } else {
        let earlier = ops.drop_last();
        assert forall|i: int| 0 <= i < earlier.len() implies (#[trigger] earlier[i]).keeps_audio() by {
            assert(earlier[i] == ops[i]);
        }
        lemma_chunks_keep_order(state, earlier);
        let before = state.run(earlier);
        assert(ops.last() == ops[ops.len() - 1]);
        let waiting = before.pending();
        let total = state.pending() + state.queued(earlier);
        match ops.last() {
            Op::Push(chunk) => {
                if before.push_result(chunk) == Ok::<PushedView, PushError>(PushedView::Queued) {
                    assert(state.sent(earlier) + waiting.push(chunk) =~= (state.sent(earlier)
                        + waiting).push(chunk));
                    assert(state.pending() + state.queued(earlier).push(chunk) =~= total.push(
                        chunk,
                    ));
                }
            },
            Op::NextChunk(session) => {
                match before.uplink_step(session) {
                    UplinkStepView::Send(chunk) => {
                        assert(state.sent(earlier).push(chunk) + waiting.drop_first()
                            =~= state.sent(earlier) + waiting);
                    },
                    _ => {},
                }
            },
            _ => {},
        }
    }
}

/// The uplink gets what waits, in order. After as many requests as chunks wait, or fewer,
/// the chunks sent are the first of those that waited, the rest still waits, and the queue
/// is installed, or stopped, as it was.
pub proof fn lemma_requests_drain(state: SessionView, count: nat)
    requires
        count <= state.pending().len(),
    ensures
        state.sent(requests(state.session, count)) == state.pending().take(count as int),
        state.run(requests(state.session, count)).pending() == state.pending().skip(count as int),
        state.run(requests(state.session, count)).session == state.session,
        state.run(requests(state.session, count)).channel is Open == state.channel is Open,
        state.run(requests(state.session, count)).channel is Draining
            == state.channel is Draining,
    decreases count,
{
    let ops = requests(state.session, count);
    let waited = state.pending();
    if count == 0 {
        assert(state.sent(ops) =~= waited.take(0));
        assert(state.run(ops).pending() =~= waited.skip(0));
    } else {
        let fewer = (count - 1) as nat;
        lemma_requests_drain(state, fewer);
        assert(ops.drop_last() =~= requests(state.session, fewer));
        assert(ops.last() == Op::NextChunk(state.session));
        let before = state.run(requests(state.session, fewer));
        assert(before.pending()[0] == waited[fewer as int]);
        assert(waited.take(fewer as int).push(waited[fewer as int]) =~= waited.take(count as int));
        assert(waited.skip(fewer as int).drop_first() =~= waited.skip(count as int));
    }
}

/// A stop loses no audio. The chunks that waited when the session was stopped are handed
/// to the uplink, all of them and in order, and the uplink is told to end only after the
/// last. A chunk that is pushed after the stop is dropped and is never sent.
pub proof fn lemma_stop_keeps_what_waits(state: SessionView, chunk: Seq<u8>)
    ensures
        ({
            let stopped = state.stop();
            let late = stopped.push(chunk);
            let drain = requests(state.session, state.pending().len());
            &&& stopped.pending() == state.pending()
            &&& !stopped.active()
            &&& stopped.push_result(chunk) == Ok::<PushedView, PushError>(PushedView::Dropped)
            &&& late == stopped
            &&& late.sent(drain) == state.pending()
            &&& late.run(drain).pending() == Seq::<Seq<u8>>::empty()
            &&& late.run(drain).uplink_step(state.session) == UplinkStepView::Exit
        }),
{
    let stopped = state.stop();
    let waited = state.pending();
    lemma_requests_drain(stopped, waited.len());
    assert(waited.take(waited.len() as int) =~= waited);
    assert(waited.skip(waited.len() as int) =~= Seq::<Seq<u8>>::empty());
}

/// A stopped session takes no audio until the next start. Whatever is called after `stop`,
/// short of `start`, no queue is installed, and a push is answered with `Dropped`, never
/// with an error, and changes nothing.
pub proof fn lemma_push_after_stop(state: SessionView, ops: Seq<Op>, chunk: Seq<u8>)
    requires
        forall|i: int| 0 <= i < ops.len() ==> !((#[trigger] ops[i]) is Start),
    ensures
        state.stop().run(ops).channel is Absent || state.stop().run(ops).channel is Draining,
        !state.stop().run(ops).active(),
        state.stop().run(ops).push_result(chunk) == Ok::<PushedView, PushError>(PushedView::Dropped),
        state.stop().run(ops).push(chunk) == state.stop().run(ops),
    decreases ops.len(),
{
    if ops.len() > 0 {
        let earlier = ops.drop_last();
        assert forall|i: int| 0 <= i < earlier.len() implies !((#[trigger] earlier[i]) is Start) by {
            assert(earlier[i] == ops[i]);
        }
        lemma_push_after_stop(state, earlier, chunk);
        assert(ops.last() == ops[ops.len() - 1]);
    }
}

/// Starting a session ends the one before it. The new session has another number and an
/// empty queue of its own. The pipelines of the old session are told to end the next time
/// they ask: they get no chunk, publish no event and change nothing.
pub proof fn lemma_start_supersedes(state: SessionView, params: SessionParamsView, inbound: InboundView)
    ensures
        ({
            let started = state.start(params);
            let old_session = state.session;
            &&& started.session != old_session
            &&& started.active()
            &&& started.pending() == Seq::<Seq<u8>>::empty()
            &&& started.uplink_step(old_session) == UplinkStepView::Exit
            &&& started.after_uplink_step(old_session) == started
            &&& started.send_failed(old_session) == started
            &&& started.downlink_step(old_session, inbound) == (DownlinkStepView {
                event: None,
                done: true,
            })
            &&& started.after_inbound(old_session, inbound) == started
        }),
{
}

/// A superseded session stays ended. Whatever is called after the `start` that superseded
/// it, short of another `start`, its pipelines are told to end: the uplink gets no chunk and
/// the downlink publishes nothing.
pub proof fn lemma_superseded_stays_ended(
    state: SessionView,
    params: SessionParamsView,
    ops: Seq<Op>,
    inbound: InboundView,
)
    requires
        forall|i: int| 0 <= i < ops.len() ==> !((#[trigger] ops[i]) is Start),
    ensures
        state.start(params).run(ops).session == state.start(params).session,
        state.start(params).run(ops).session != state.session,
        state.start(params).run(ops).uplink_step(state.session) == UplinkStepView::Exit,
        state.start(params).run(ops).downlink_step(state.session, inbound) == (DownlinkStepView {
            event: None,
            done: true,
        }),
    decreases ops.len(),
{
    if ops.len() > 0 {
        let earlier = ops.drop_last();
        assert forall|i: int| 0 <= i < earlier.len() implies !((#[trigger] earlier[i]) is Start) by {
            assert(earlier[i] == ops[i]);
        }
        lemma_superseded_stays_ended(state, params, earlier, inbound);
        assert(ops.last() == ops[ops.len() - 1]);
    }
}

/// A message with a transcript gives exactly one event, with the same text and flag; a
/// message whose transcript is empty gives none. Either way the pipeline goes on and the
/// state is what it was.
pub proof fn lemma_transcript_gives_one_event(
    state: SessionView,
    text: Seq<char>,
    doc: JsonValue,
    alternative: JsonValue,
    transcript: Seq<char>,
    is_final: bool,
)
    requires
        state.active(),
        json_from_str(text) == Some(doc),
        first_alternative(doc) == Some(alternative),
        alternative.member("transcript"@) == Some(JsonValue::Text(transcript)),
        doc.member("is_final"@) == Some(JsonValue::Bool(is_final)),
    ensures
        transcript.len() > 0 ==> event_of_text(text) == Some(
            TranscriptEventView { text: transcript, is_final },
        ),
        transcript.len() == 0 ==> event_of_text(text) is None,
        transcript.len() > 0 ==> state.downlink_step(state.session, InboundView::Text(text)).event
            == Some(EventView::Transcript(TranscriptEventView { text: transcript, is_final })),
        transcript.len() == 0 ==> state.downlink_step(
            state.session,
            InboundView::Text(text),
        ).event is None,
        !state.downlink_step(state.session, InboundView::Text(text)).done,
        state.after_inbound(state.session, InboundView::Text(text)) == state,
{
}

/// Text that cannot be decoded is passed over: text that is no JSON document, or a
/// document without a first alternative, gives no event, does not end the pipeline of the
/// current session and changes nothing.
pub proof fn lemma_undecodable_text_is_passed_over(state: SessionView, session: u64, text: Seq<char>)
    requires
        match json_from_str(text) {
            Some(doc) => recognition_of(doc) is None,
            None => true,
        },
    ensures
        event_of_text(text) is None,
        state.downlink_step(session, InboundView::Text(text)).event is None,
        session == state.session ==> !state.downlink_step(session, InboundView::Text(text)).done,
        state.after_inbound(session, InboundView::Text(text)) == state,
{
}

/// The queue never outgrows its capacity: no call makes a bounded state unbounded.
pub proof fn lemma_queue_stays_bounded(state: SessionView, ops: Seq<Op>)
    requires
        state.bounded(),
    ensures
        state.run(ops).bounded(),
        SessionView::initial().bounded(),
    decreases ops.len(),
{
    if ops.len() > 0 {
        lemma_queue_stays_bounded(state, ops.drop_last());
        let before = state.run(ops.drop_last());
        match ops.last() {
            Op::NextChunk(session) => {
                if session == before.session && before.pending().len() > 0 {
                    assert(before.pending().drop_first().len() == before.pending().len() - 1);
                }
            },
            _ => {},
        }
    }
}

/// The end of a session is marked once, however often it is reported. When a pipeline of
/// the current session reports its end, the session is inactive; a second report of the
/// same kind changes nothing more; and where both pipelines report, the state is the same
/// whichever came first.
pub proof fn lemma_end_is_idempotent(state: SessionView, inbound: InboundView)
    requires
        inbound is Close || inbound is Failure,
    ensures
        ({
            let session = state.session;
            let failed = state.send_failed(session);
            let closed = state.after_inbound(session, inbound);
            &&& !failed.active()
            &&& !closed.active()
            &&& failed.send_failed(session) == failed
            &&& closed.after_inbound(session, inbound) == closed
            &&& failed.after_inbound(session, inbound) == closed.send_failed(session)
        }),
{
}

/// After its uplink has failed, a session that is still installed refuses audio with
/// `ChannelClosed`; after its stream has closed or failed, it drops audio in silence.
pub proof fn lemma_push_after_end(state: SessionView, inbound: InboundView, chunk: Seq<u8>)
    requires
        state.active(),
        inbound is Close || inbound is Failure,
    ensures
        state.send_failed(state.session).push_result(chunk) == Err::<PushedView, PushError>(
            PushError::ChannelClosed,
        ),
        state.after_inbound(state.session, inbound).push_result(chunk) == Ok::<
            PushedView,
            PushError,
        >(PushedView::Dropped),
        state.send_failed(state.session).push(chunk) == state.send_failed(state.session),
        state.after_inbound(state.session, inbound).push(chunk) == state.after_inbound(
            state.session,
            inbound,
        ),
{
}

} // verus!
