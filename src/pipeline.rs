//! The publish pipeline: pulls telegrams one at a time, turns each into
//! messages and publishes them one after another. Its only exit is an error.
//!
//! The pipeline is a state machine. The caller performs each action it returns
//! (reading the next telegram, publishing a message) and hands the outcome back.

use vstd::prelude::*;
use crate::measurement::{
    DecodedObject, Measurements, MessageView, OutboundMessage, decoded, messages_of, views,
};

verus! {

/// Why a telegram frame could not be decoded.
#[derive(Clone, Copy, PartialEq, Eq, Structural, Debug)]
pub enum FrameError {
    InvalidFormat,
    InvalidChecksum,
    UnknownObis,
    BufferOverflow,
}

/// The telegram decoder's error, `dsmr5::Error`, a plain enum of three variants.
#[verifier::external_type_specification]
pub struct ExDsmrError(dsmr5::Error);

/// The frame error that a decoder error stands for.
pub open spec fn frame_error_of(e: dsmr5::Error) -> FrameError {
    match e {
        dsmr5::Error::InvalidFormat => FrameError::InvalidFormat,
        dsmr5::Error::InvalidChecksum => FrameError::InvalidChecksum,
        dsmr5::Error::UnknownObis => FrameError::UnknownObis,
    }
}

impl FrameError {
    /// The frame error for an error of the telegram decoder.
    pub fn from_decoder(e: dsmr5::Error) -> (r: FrameError)
        ensures
            r == frame_error_of(e),
    {
        match e {
            dsmr5::Error::InvalidFormat => FrameError::InvalidFormat,
            dsmr5::Error::InvalidChecksum => FrameError::InvalidChecksum,
            dsmr5::Error::UnknownObis => FrameError::UnknownObis,
        }
    }
}

/// Why a cycle of the bridge ended.
#[derive(Clone, Copy, PartialEq, Eq, Structural, Debug)]
pub enum RunError {
    /// The serial device could not be opened or configured.
    Serial,
    /// A telegram failed to decode.
    Decode(FrameError),
    /// The broker client refused a message.
    Publish,
    /// The telegram source ended, which a live meter never does.
    EndOfStream,
    /// The configured quality-of-service level is not one the broker client
    /// knows, so nothing can be published.
    InvalidQos(i32),
}

/// One element of the telegram source.
pub enum SourceItem {
    /// A decoded telegram, as its data objects.
    Telegram(Vec<DecodedObject>),
    /// A frame that failed to decode.
    DecodeFailed(FrameError),
    /// The source has ended.
    Exhausted,
}

/// What the caller does next.
pub enum Action {
    /// Pull the next element of the telegram source.
    ReadTelegram,
    /// Submit this message to the broker client, then report the outcome.
    Publish(OutboundMessage),
    /// The pipeline has failed with this error.
    Stop(RunError),
}

/// An action as plain values.
pub enum ActionView {
    ReadTelegram,
    Publish(MessageView),
    Stop(RunError),
}

impl View for Action {
    type V = ActionView;

    open spec fn view(&self) -> ActionView {
        match self {
            Action::ReadTelegram => ActionView::ReadTelegram,
            Action::Publish(m) => ActionView::Publish(m@),
            Action::Stop(e) => ActionView::Stop(*e),
        }
    }
}

/// An element of the telegram source as plain values.
pub enum ItemView {
    Telegram(Seq<DecodedObject>),
    DecodeFailed(FrameError),
    Exhausted,
}

impl View for SourceItem {
    type V = ItemView;

    open spec fn view(&self) -> ItemView {
        match self {
            SourceItem::Telegram(objs) => ItemView::Telegram(objs@),
            SourceItem::DecodeFailed(e) => ItemView::DecodeFailed(*e),
            SourceItem::Exhausted => ItemView::Exhausted,
        }
    }
}

#[derive(Clone, Copy, PartialEq, Eq, Structural, Debug)]
pub enum Phase {
    /// Waiting for the next element of the telegram source.
    Reading,
    /// Waiting for the outcome of a publish.
    Publishing,
    /// Failed; no further action.
    Stopped(RunError),
}

/// The pipeline's state as plain values.
pub struct PipelineView {
    pub prefix: Seq<char>,
    pub qos: rumqttc::QoS,
    /// The messages of the telegram being published.
    pub pending: Seq<MessageView>,
    /// How many of them have been handed out.
    pub sent: nat,
    pub phase: Phase,
}

/// The state and action after an element of the source arrives in `Reading`.
pub open spec fn after_item(s: PipelineView, item: ItemView) -> (PipelineView, ActionView) {
    match item {
        ItemView::Telegram(objs) => {
            let ms = messages_of(decoded(objs), s.prefix, s.qos);
            if ms.len() == 0 {
                (PipelineView { pending: Seq::empty(), sent: 0, phase: Phase::Reading, ..s },
                ActionView::ReadTelegram)
            } else {
                (PipelineView { pending: ms, sent: 1, phase: Phase::Publishing, ..s },
                ActionView::Publish(ms[0]))
            }
        },
        ItemView::DecodeFailed(e) => (
            PipelineView { phase: Phase::Stopped(RunError::Decode(e)), ..s },
            ActionView::Stop(RunError::Decode(e)),
        ),
        ItemView::Exhausted => (
            PipelineView { phase: Phase::Stopped(RunError::EndOfStream), ..s },
            ActionView::Stop(RunError::EndOfStream),
        ),
    }
}

/// The state and action after the outcome of a publish arrives in `Publishing`.
pub open spec fn after_publish(s: PipelineView, ok: bool) -> (PipelineView, ActionView) {
    if !ok {
        (
            PipelineView { phase: Phase::Stopped(RunError::Publish), ..s },
            ActionView::Stop(RunError::Publish),
        )
    } else if s.sent < s.pending.len() {
        (PipelineView { sent: s.sent + 1, ..s }, ActionView::Publish(s.pending[s.sent as int]))
    } else {
        (PipelineView { pending: Seq::empty(), sent: 0, phase: Phase::Reading, ..s },
        ActionView::ReadTelegram)
    }
}

/// The pipeline of one cycle.
pub struct Pipeline {
    prefix: String,
    qos: rumqttc::QoS,
    pending: Vec<OutboundMessage>,
    sent: usize,
    phase: Phase,
}

impl View for Pipeline {
    type V = PipelineView;

    closed spec fn view(&self) -> PipelineView {
        PipelineView {
            prefix: self.prefix@,
            qos: self.qos,
            pending: views(self.pending@),
            sent: self.sent as nat,
            phase: self.phase,
        }
    }
}

impl Pipeline {
    /// Handed-out messages never exceed the pending ones; nothing is pending
    /// while reading.
    pub open spec fn wf(&self) -> bool {
        &&& self@.sent <= self@.pending.len()
        &&& self@.phase is Publishing ==> self@.sent >= 1
        &&& self@.phase is Reading ==> self@.pending.len() == 0 && self@.sent == 0
    }

    /// A pipeline that publishes under `prefix` with quality-of-service `qos`;
    /// it starts by reading a telegram.
    pub fn new(prefix: String, qos: rumqttc::QoS) -> (r: Pipeline)
        ensures
            r.wf(),
            r@ == (PipelineView {
                prefix: prefix@,
                qos,
                pending: Seq::empty(),
                sent: 0,
                phase: Phase::Reading,
            }),
    {
        let r = Pipeline { prefix, qos, pending: Vec::new(), sent: 0, phase: Phase::Reading };
        proof {
            assert(views(r.pending@) =~= Seq::<MessageView>::empty());
        }
        r
    }

    pub fn phase(&self) -> (r: Phase)
        ensures
            r == self@.phase,
    {
        self.phase
    }

    /// Takes the next element of the telegram source: a telegram yields its
    /// first message to publish (or, with no message, a further read); a decode
    /// failure or the end of the source stops the pipeline.
    pub fn on_item(&mut self, item: SourceItem) -> (r: Action)
        requires
            old(self).wf(),
            old(self)@.phase is Reading,
        ensures
            final(self).wf(),
            (final(self)@, r@) == after_item(old(self)@, item@),
    {
        match item {
            SourceItem::Telegram(objs) => {
                let m = Measurements::from_objects(&objs);
                let ms = m.into_mqtt_messages(self.prefix.as_str(), self.qos);
                if ms.len() == 0 {
                    proof {
                        assert(views(self.pending@) =~= Seq::<MessageView>::empty());
                    }
                    Action::ReadTelegram
                } else {
                    let first = ms[0].clone();
                    self.pending = ms;
                    self.sent = 1;
                    self.phase = Phase::Publishing;
                    Action::Publish(first)
                }
            },
            SourceItem::DecodeFailed(e) => {
                self.phase = Phase::Stopped(RunError::Decode(e));
                Action::Stop(RunError::Decode(e))
            },
            SourceItem::Exhausted => {
                self.phase = Phase::Stopped(RunError::EndOfStream);
                Action::Stop(RunError::EndOfStream)
            },
        }
    }

    /// Takes the outcome of the last publish: on success the next message of
    /// the telegram, or a read once all are out; on failure the pipeline stops.
    pub fn on_published(&mut self, ok: bool) -> (r: Action)
        requires
            old(self).wf(),
            old(self)@.phase is Publishing,
        ensures
            final(self).wf(),
            (final(self)@, r@) == after_publish(old(self)@, ok),
    {
        if !ok {
            self.phase = Phase::Stopped(RunError::Publish);
            Action::Stop(RunError::Publish)
        } else if self.sent < self.pending.len() {
            let m = self.pending[self.sent].clone();
            self.sent = self.sent + 1;
            Action::Publish(m)
        } else {
            self.pending = Vec::new();
            self.sent = 0;
            self.phase = Phase::Reading;
            proof {
                assert(views(self.pending@) =~= Seq::<MessageView>::empty());
            }
            Action::ReadTelegram
        }
    }
}

/// The pipeline of a fresh cycle, as plain values.
pub open spec fn started(prefix: Seq<char>, qos: rumqttc::QoS) -> PipelineView {
    PipelineView { prefix, qos, pending: Seq::empty(), sent: 0, phase: Phase::Reading }
}

/// Reports successful publishes until the pipeline asks for something other
/// than a publish: the state reached and the actions asked for on the way.
pub open spec fn drain(s: PipelineView) -> (PipelineView, Seq<ActionView>)
    decreases s.pending.len() - s.sent,
{
    if s.phase is Publishing && s.sent <= s.pending.len() {
        let (s2, a) = after_publish(s, true);
        if s.sent < s.pending.len() {
            let (s3, rest) = drain(s2);
            (s3, seq![a] + rest)
        } else {
            (s2, seq![a])
        }
    } else {
        (s, Seq::empty())
    }
}

/// The actions that the pipeline asks for, from state `s`, when the source
/// yields the elements of `src` and then ends, and every publish succeeds.
pub open spec fn trace(s: PipelineView, src: Seq<ItemView>) -> Seq<ActionView>
    decreases src.len(),
{
    if src.len() == 0 {
        seq![after_item(s, ItemView::Exhausted).1]
    } else {
        let (s1, a1) = after_item(s, src[0]);
        match a1 {
            ActionView::ReadTelegram => seq![a1] + trace(s1, src.skip(1)),
            ActionView::Publish(_) => {
                let (s2, more) = drain(s1);
                if s2.phase is Reading {
                    seq![a1] + more + trace(s2, src.skip(1))
                } else {
                    seq![a1] + more
                }
            },
            ActionView::Stop(_) => seq![a1],
        }
    }
}

/// The messages that a sequence of actions publishes, in order.
pub open spec fn published(acts: Seq<ActionView>) -> Seq<MessageView>
    decreases acts.len(),
{
    if acts.len() == 0 {
        Seq::empty()
    } else {
        published(acts.drop_last()) + match acts.last() {
            ActionView::Publish(m) => seq![m],
            _ => Seq::empty(),
        }
    }
}

/// The messages of the telegrams at the front of `src`, telegram after
/// telegram, up to the first element that is not a telegram.
pub open spec fn telegram_messages(
    prefix: Seq<char>,
    qos: rumqttc::QoS,
    src: Seq<ItemView>,
) -> Seq<MessageView>
    decreases src.len(),
{
    if src.len() == 0 {
        Seq::empty()
    } else {
        match src[0] {
            ItemView::Telegram(objs) => messages_of(decoded(objs), prefix, qos)
                + telegram_messages(prefix, qos, src.skip(1)),
            _ => Seq::empty(),
        }
    }
}

/// The error that ends the pipeline on `src`: that of its first element that
/// is not a telegram, or the end of the stream when there is none.
pub open spec fn outcome(src: Seq<ItemView>) -> RunError
    decreases src.len(),
{
    if src.len() == 0 {
        RunError::EndOfStream
    } else {
        match src[0] {
            ItemView::Telegram(_) => outcome(src.skip(1)),
            ItemView::DecodeFailed(e) => RunError::Decode(e),
            ItemView::Exhausted => RunError::EndOfStream,
        }
    }
}

proof fn lemma_published_append(a: Seq<ActionView>, b: Seq<ActionView>)
    ensures
        published(a + b) == published(a) + published(b),
    decreases b.len(),
{
    if b.len() == 0 {
        assert(a + b =~= a);
        assert(published(b) =~= Seq::<MessageView>::empty());
        assert(published(a) + published(b) =~= published(a));
    } else {
        lemma_published_append(a, b.drop_last());
        assert((a + b).drop_last() =~= a + b.drop_last());
        assert((a + b).last() == b.last());
        assert(published(a + b) =~= published(a) + published(b));
    }
}

proof fn lemma_published_one(a: ActionView)
    ensures
        published(seq![a]) == match a {
            ActionView::Publish(m) => seq![m],
            _ => Seq::<MessageView>::empty(),
        },
{
    assert(seq![a].drop_last() =~= Seq::<ActionView>::empty());
    assert(published(seq![a]) =~= published(Seq::<ActionView>::empty()) + match a {
        ActionView::Publish(m) => seq![m],
        _ => Seq::<MessageView>::empty(),
    });
}

proof fn lemma_drain(s: PipelineView)
    requires
        s.phase is Publishing,
        s.sent <= s.pending.len(),
    ensures
        drain(s).0 == started(s.prefix, s.qos),
        published(drain(s).1) == s.pending.skip(s.sent as int),
    decreases s.pending.len() - s.sent,
{
    let (s2, a) = after_publish(s, true);
    lemma_published_one(a);
    if s.sent < s.pending.len() {
        lemma_drain(s2);
        lemma_published_append(seq![a], drain(s2).1);
        assert(s.pending.skip(s.sent as int) =~= seq![s.pending[s.sent as int]]
            + s.pending.skip(s.sent + 1 as int));
    } else {
        assert(s.pending.skip(s.sent as int) =~= Seq::<MessageView>::empty());
    }
}

proof fn lemma_trace(s: PipelineView, src: Seq<ItemView>)
    requires
        s == started(s.prefix, s.qos),
    ensures
        published(trace(s, src)) == telegram_messages(s.prefix, s.qos, src),
        trace(s, src).len() > 0,
        trace(s, src).last() == ActionView::Stop(outcome(src)),
    decreases src.len(),
{
    if src.len() == 0 {
        lemma_published_one(trace(s, src)[0]);
    } else {
        let (s1, a1) = after_item(s, src[0]);
        lemma_published_one(a1);
        match src[0] {
            ItemView::Telegram(objs) => {
                let ms = messages_of(decoded(objs), s.prefix, s.qos);
                if ms.len() == 0 {
                    lemma_trace(s1, src.skip(1));
                    lemma_published_append(seq![a1], trace(s1, src.skip(1)));
                    assert(telegram_messages(s.prefix, s.qos, src) =~= telegram_messages(
                        s.prefix,
                        s.qos,
                        src.skip(1),
                    ));
                } else {
                    lemma_drain(s1);
                    let (s2, more) = drain(s1);
                    lemma_trace(s2, src.skip(1));
                    lemma_published_append(seq![a1], more);
                    lemma_published_append(seq![a1] + more, trace(s2, src.skip(1)));
                    assert(ms =~= seq![ms[0]] + ms.skip(1));
                    assert(published(seq![a1] + more) =~= ms);
                    assert(telegram_messages(s.prefix, s.qos, src) =~= ms + telegram_messages(
                        s.prefix,
                        s.qos,
                        src.skip(1),
                    ));
                }
            },
            _ => {
                assert(telegram_messages(s.prefix, s.qos, src) =~= Seq::<MessageView>::empty());
            },
        }
    }
}

/// Every message of a telegram is published before any message of the next
/// one: when every publish succeeds, the pipeline publishes the messages of the
/// source's telegrams in source order, each telegram's messages together and in
/// their own order, and then stops with the error of the first element that is
/// not a telegram.
pub proof fn lemma_publish_order(prefix: Seq<char>, qos: rumqttc::QoS, src: Seq<ItemView>)
    ensures
        published(trace(started(prefix, qos), src)) == telegram_messages(prefix, qos, src),
        trace(started(prefix, qos), src).len() > 0,
        trace(started(prefix, qos), src).last() == ActionView::Stop(outcome(src)),
{
    lemma_trace(started(prefix, qos), src);
}

/// When the source ends after nothing but telegrams, the pipeline stops with
/// `EndOfStream`: it has no way of finishing successfully.
pub proof fn lemma_exhaustion_is_end_of_stream(
    prefix: Seq<char>,
    qos: rumqttc::QoS,
    src: Seq<ItemView>,
)
    requires
        forall|i: int| 0 <= i < src.len() ==> #[trigger] src[i] is Telegram,
    ensures
        trace(started(prefix, qos), src).last() == ActionView::Stop(RunError::EndOfStream),
    decreases src.len(),
{
    lemma_trace(started(prefix, qos), src);
    if src.len() > 0 {
        assert forall|i: int| 0 <= i < src.skip(1).len() implies #[trigger] src.skip(1)[i] is Telegram by {
            assert(src.skip(1)[i] == src[i + 1]);
        }
        lemma_exhaustion_is_end_of_stream(prefix, qos, src.skip(1));
        lemma_trace(started(prefix, qos), src.skip(1));
        assert(src[0] is Telegram);
    }
}

} // verus!
