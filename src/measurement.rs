//! The last-wins fold of a telegram's data objects into a set of measurements,
//! and the outbound messages that a set of measurements yields.

use vstd::prelude::*;
use crate::tags::{Tag, TAG_COUNT, tag_index, tag_at, tag_name, lemma_tag_order};
use crate::text::{decimal, fixed_point_text, push_decimal, push_fixed_point};

verus! {

/// The value of one data object.
#[derive(Clone, Copy, PartialEq, Eq, Structural, Debug)]
pub enum Value {
    /// The fixed-point number `digits / 10^point`.
    Fixed { digits: u64, point: u8 },
    /// A whole count.
    Count(u64),
}

/// A recognized data object: a tag and its value.
#[derive(Clone, Copy, PartialEq, Eq, Structural, Debug)]
pub struct DataObject {
    pub tag: Tag,
    pub value: Value,
}

/// One data object of a telegram as the decoder delivered it.
#[derive(Clone, Copy, PartialEq, Eq, Structural, Debug)]
pub enum DecodedObject {
    /// An object of a recognized tag.
    Recognized(DataObject),
    /// A well-formed object that no tag stands for.
    Unrecognized,
    /// An object that failed to decode.
    Malformed,
}

/// The value that the last recognized object of tag `t` among `objs` carries.
pub open spec fn last_value(objs: Seq<DecodedObject>, t: Tag) -> Option<Value>
    decreases objs.len(),
{
    if objs.len() == 0 {
        None
    } else {
        match objs.last() {
            DecodedObject::Recognized(o) => if o.tag == t {
                Some(o.value)
            } else {
                last_value(objs.drop_last(), t)
            },
            _ => last_value(objs.drop_last(), t),
        }
    }
}

/// The measurements that a telegram yields, one field per tag in tag order.
pub open spec fn decoded(objs: Seq<DecodedObject>) -> Seq<Option<Value>> {
    Seq::new(TAG_COUNT as nat, |i: int| last_value(objs, tag_at(i)))
}

/// The payload text of a value.
pub open spec fn value_text(v: Value) -> Seq<char> {
    match v {
        Value::Fixed { digits, point } => fixed_point_text(digits as nat, point as nat),
        Value::Count(n) => decimal(n as nat),
    }
}

/// The topic under which the metric of tag `t` is published.
pub open spec fn topic_of(prefix: Seq<char>, t: Tag) -> Seq<char> {
    prefix + seq!['/'] + tag_name(t)
}

/// A message as plain values: topic, payload and quality-of-service.
pub type MessageView = (Seq<char>, Seq<char>, rumqttc::QoS);

pub open spec fn message_for(prefix: Seq<char>, t: Tag, v: Value, qos: rumqttc::QoS) -> MessageView {
    (topic_of(prefix, t), value_text(v), qos)
}

/// The positions below `n` whose field is populated, in increasing order.
pub open spec fn populated(fields: Seq<Option<Value>>, n: nat) -> Seq<int>
    decreases n,
{
    if n == 0 {
        Seq::empty()
    } else {
        let rest = populated(fields, (n - 1) as nat);
        if fields[n - 1] is Some {
            rest.push(n - 1)
        } else {
            rest
        }
    }
}

/// The messages for the first `n` fields, in tag order.
pub open spec fn messages_upto(
    fields: Seq<Option<Value>>,
    n: nat,
    prefix: Seq<char>,
    qos: rumqttc::QoS,
) -> Seq<MessageView>
    decreases n,
{
    if n == 0 {
        Seq::empty()
    } else {
        let rest = messages_upto(fields, (n - 1) as nat, prefix, qos);
        match fields[n - 1] {
            Some(v) => rest.push(message_for(prefix, tag_at(n - 1), v, qos)),
            None => rest,
        }
    }
}

/// The messages that a set of measurements yields: one per populated field.
pub open spec fn messages_of(
    fields: Seq<Option<Value>>,
    prefix: Seq<char>,
    qos: rumqttc::QoS,
) -> Seq<MessageView> {
    messages_upto(fields, fields.len(), prefix, qos)
}

/// A message bound for the broker.
pub struct OutboundMessage {
    pub topic: String,
    pub payload: String,
    pub qos: rumqttc::QoS,
}

impl View for OutboundMessage {
    type V = MessageView;

    open spec fn view(&self) -> MessageView {
        (self.topic@, self.payload@, self.qos)
    }
}

impl Clone for OutboundMessage {
    fn clone(&self) -> (r: OutboundMessage)
        ensures
            r@ == self@,
    {
        OutboundMessage { topic: self.topic.clone(), payload: self.payload.clone(), qos: self.qos }
    }
}

/// The views of a list of messages.
pub open spec fn views(ms: Seq<OutboundMessage>) -> Seq<MessageView> {
    ms.map_values(|m: OutboundMessage| m@)
}

/// The measurements of one telegram: for each tag, the value of its last
/// recognized object, if any.
pub struct Measurements {
    fields: Vec<Option<Value>>,
}

impl View for Measurements {
    type V = Seq<Option<Value>>;

    closed spec fn view(&self) -> Seq<Option<Value>> {
        self.fields@
    }
}

impl Measurements {
    pub open spec fn wf(&self) -> bool {
        self@.len() == TAG_COUNT
    }

    /// Folds the data objects of a telegram, keeping the last value of each
    /// recognized tag and passing over unrecognized and malformed objects.
    pub fn from_objects(objs: &Vec<DecodedObject>) -> (r: Measurements)
        ensures
            r.wf(),
            r@ == decoded(objs@),
    {
        let mut fields: Vec<Option<Value>> = Vec::new();
        let mut k: usize = 0;
        while k < TAG_COUNT
            invariant
                k <= TAG_COUNT,
                fields@.len() == k,
                forall|j: int| 0 <= j < k ==> #[trigger] fields@[j] is None,
            decreases TAG_COUNT - k,
        {
            fields.push(None);
            k = k + 1;
        }
        let mut i: usize = 0;
        while i < objs.len()
            invariant
                i <= objs@.len(),
                fields@.len() == TAG_COUNT,
                forall|j: int|
                    0 <= j < TAG_COUNT ==> #[trigger] fields@[j] == last_value(
                        objs@.take(i as int),
                        tag_at(j),
                    ),
            decreases objs@.len() - i,
        {
            proof {
                assert(objs@.take(i + 1).drop_last() =~= objs@.take(i as int));
            }
            match objs[i] {
                DecodedObject::Recognized(o) => {
                    let ix = o.tag.index();
                    fields.set(ix, Some(o.value));
                    proof {
                        assert forall|j: int| 0 <= j < TAG_COUNT implies #[trigger] fields@[j]
                            == last_value(objs@.take(i + 1), tag_at(j)) by {
                            lemma_tag_order(o.tag, j);
                        }
                    }
                },
                _ => {},
            }
            i = i + 1;
        }
        proof {
            assert(objs@.take(objs@.len() as int) =~= objs@);
        }
        let r = Measurements { fields };
        proof {
            assert(r@ =~= decoded(objs@));
        }
        r
    }

    /// The value measured for a tag, if the telegram carried one.
    pub fn get(&self, t: Tag) -> (r: Option<Value>)
        requires
            self.wf(),
        ensures
            r == self@[tag_index(t)],
    {
        self.fields[t.index()]
    }

    /// Whether no tag was measured.
    pub fn is_empty(&self) -> (r: bool)
        requires
            self.wf(),
        ensures
            r == (forall|j: int| 0 <= j < TAG_COUNT ==> #[trigger] self@[j] is None),
    {
        let mut i: usize = 0;
        while i < TAG_COUNT
            invariant
                self.wf(),
                i <= TAG_COUNT,
                forall|j: int| 0 <= j < i ==> #[trigger] self@[j] is None,
            decreases TAG_COUNT - i,
        {
            if self.fields[i].is_some() {
                return false;
            }
            i = i + 1;
        }
        true
    }

    /// The messages for the populated fields, in tag order, each under
    /// `{prefix}/{name}` with the value's text as payload.
    pub fn into_mqtt_messages(self, prefix: &str, qos: rumqttc::QoS) -> (r: Vec<OutboundMessage>)
        requires
            self.wf(),
        ensures
            views(r@) == messages_of(self@, prefix@, qos),
    {
        let mut r: Vec<OutboundMessage> = Vec::new();
        let mut i: usize = 0;
        while i < TAG_COUNT
            invariant
                self.wf(),
                i <= TAG_COUNT,
                views(r@) == messages_upto(self@, i as nat, prefix@, qos),
            decreases TAG_COUNT - i,
        {
            match self.fields[i] {
                Some(v) => {
                    let m = message(prefix, Tag::at(i), v, qos);
                    let ghost before = r@;
                    r.push(m);
                    proof {
                        assert(views(r@) =~= views(before).push(m@));
                    }
                },
                None => {},
            }
            i = i + 1;
        }
        r
    }
}

/// The message that publishes value `v` of tag `t`.
pub fn message(prefix: &str, t: Tag, v: Value, qos: rumqttc::QoS) -> (r: OutboundMessage)
    ensures
        r@ == message_for(prefix@, t, v, qos),
{
    let mut topic = prefix.to_string();
    topic.append("/");
    topic.append(t.name());
    let mut payload = String::new();
    match v {
        Value::Fixed { digits, point } => push_fixed_point(&mut payload, digits, point),
        Value::Count(n) => push_decimal(&mut payload, n),
    }
    proof {
        reveal_strlit("/");
        assert(topic@ =~= topic_of(prefix@, t));
        assert(payload@ =~= value_text(v));
    }
    OutboundMessage { topic, payload, qos }
}

proof fn lemma_messages_upto(
    fields: Seq<Option<Value>>,
    n: nat,
    prefix: Seq<char>,
    qos: rumqttc::QoS,
)
    requires
        n <= fields.len(),
    ensures
        ({
            let ms = messages_upto(fields, n, prefix, qos);
            let idx = populated(fields, n);
            &&& ms.len() == idx.len()
            &&& forall|j: int|
                0 <= j < idx.len() ==> 0 <= #[trigger] idx[j] < n && fields[idx[j]] is Some
                    && ms[j] == message_for(prefix, tag_at(idx[j]), fields[idx[j]].unwrap(), qos)
            &&& forall|j: int, k: int| 0 <= j < k < idx.len() ==> idx[j] < idx[k]
            &&& forall|i: int| 0 <= i < n ==> (fields[i] is Some <==> idx.contains(i))
        }),
    decreases n,
{
    if n > 0 {
        lemma_messages_upto(fields, (n - 1) as nat, prefix, qos);
        let idx0 = populated(fields, (n - 1) as nat);
        let idx = populated(fields, n);
        assert forall|i: int| 0 <= i < n implies (fields[i] is Some <==> idx.contains(i)) by {
            if i < n - 1 {
                if idx0.contains(i) {
                    let j = idx0.index_of(i);
                    assert(idx[j] == i);
                }
                if idx.contains(i) {
                    let j = idx.index_of(i);
                    if j == idx0.len() {
                        assert(idx[j] == n - 1);
                    } else {
                        assert(idx0[j] == i);
                    }
                }
            } else if fields[i] is Some {
                assert(idx[idx.len() - 1] == i);
            } else {
                assert(idx == idx0);
                if idx.contains(i) {
                    let j = idx.index_of(i);
                    assert(idx0[j] < n - 1);
                }
            }
        }
    }
}

/// For every telegram, the measurements hold for each tag exactly the value of
/// its last recognized object, and the messages are exactly one per populated
/// field, in tag order, each under the topic `{prefix}/{name}` of its tag with
/// that value's text as payload.
pub proof fn lemma_one_message_per_field(
    objs: Seq<DecodedObject>,
    prefix: Seq<char>,
    qos: rumqttc::QoS,
)
    ensures
        forall|t: Tag| #[trigger] decoded(objs)[tag_index(t)] == last_value(objs, t),
        ({
            let fields = decoded(objs);
            let ms = messages_of(fields, prefix, qos);
            let idx = populated(fields, TAG_COUNT as nat);
            &&& ms.len() == idx.len()
            &&& forall|j: int|
                0 <= j < idx.len() ==> 0 <= #[trigger] idx[j] < TAG_COUNT && last_value(
                    objs,
                    tag_at(idx[j]),
                ) is Some && ms[j] == message_for(
                    prefix,
                    tag_at(idx[j]),
                    last_value(objs, tag_at(idx[j])).unwrap(),
                    qos,
                )
            &&& forall|j: int, k: int| 0 <= j < k < idx.len() ==> idx[j] < idx[k]
            &&& forall|t: Tag| #[trigger]
                last_value(objs, t) is Some <==> idx.contains(tag_index(t))
        }),
{
    let fields = decoded(objs);
    lemma_messages_upto(fields, TAG_COUNT as nat, prefix, qos);
    assert forall|t: Tag| #[trigger] decoded(objs)[tag_index(t)] == last_value(objs, t) by {
        lemma_tag_order(t, 0);
    }
    assert forall|t: Tag| #[trigger]
        last_value(objs, t) is Some <==> populated(fields, TAG_COUNT as nat).contains(
            tag_index(t),
        ) by {
        lemma_tag_order(t, 0);
    }
}

/// Whether a telegram holds no object of a recognized tag.
pub open spec fn nothing_recognized(objs: Seq<DecodedObject>) -> bool {
    forall|i: int| 0 <= i < objs.len() ==> !(#[trigger] objs[i] is Recognized)
}

proof fn lemma_nothing_recognized_last(objs: Seq<DecodedObject>, t: Tag)
    requires
        nothing_recognized(objs),
    ensures
        last_value(objs, t) is None,
    decreases objs.len(),
{
    if objs.len() > 0 {
        assert(objs.last() == objs[objs.len() - 1]);
        assert forall|i: int| 0 <= i < objs.drop_last().len() implies !(
        #[trigger] objs.drop_last()[i] is Recognized) by {
            assert(objs.drop_last()[i] == objs[i]);
        }
        lemma_nothing_recognized_last(objs.drop_last(), t);
    }
}

proof fn lemma_no_fields_no_messages(
    fields: Seq<Option<Value>>,
    n: nat,
    prefix: Seq<char>,
    qos: rumqttc::QoS,
)
    requires
        n <= fields.len(),
        forall|i: int| 0 <= i < fields.len() ==> #[trigger] fields[i] is None,
    ensures
        messages_upto(fields, n, prefix, qos).len() == 0,
    decreases n,
{
    if n > 0 {
        lemma_no_fields_no_messages(fields, (n - 1) as nat, prefix, qos);
    }
}

/// A telegram without any recognized object yields empty measurements, and
/// empty measurements yield no message.
pub proof fn lemma_nothing_recognized_no_messages(
    objs: Seq<DecodedObject>,
    prefix: Seq<char>,
    qos: rumqttc::QoS,
)
    requires
        nothing_recognized(objs),
    ensures
        forall|j: int| 0 <= j < TAG_COUNT ==> #[trigger] decoded(objs)[j] is None,
        messages_of(decoded(objs), prefix, qos).len() == 0,
{
    assert forall|j: int| 0 <= j < TAG_COUNT implies #[trigger] decoded(objs)[j] is None by {
        lemma_nothing_recognized_last(objs, tag_at(j));
    }
    lemma_no_fields_no_messages(decoded(objs), TAG_COUNT as nat, prefix, qos);
}

proof fn lemma_skip_malformed_last(
    before: Seq<DecodedObject>,
    after: Seq<DecodedObject>,
    t: Tag,
)
    ensures
        last_value(before + seq![DecodedObject::Malformed] + after, t) == last_value(
            before + after,
            t,
        ),
    decreases after.len(),
{
    let with = before + seq![DecodedObject::Malformed] + after;
    if after.len() == 0 {
        assert(with.drop_last() =~= before);
        assert(before + after =~= before);
    } else {
        lemma_skip_malformed_last(before, after.drop_last(), t);
        assert(with.drop_last() =~= before + seq![DecodedObject::Malformed] + after.drop_last());
        assert((before + after).drop_last() =~= before + after.drop_last());
    }
}

/// A malformed object leaves the measurements of the other objects of its
/// telegram as they would be without it.
pub proof fn lemma_malformed_object_tolerated(
    before: Seq<DecodedObject>,
    after: Seq<DecodedObject>,
)
    ensures
        decoded(before + seq![DecodedObject::Malformed] + after) == decoded(before + after),
{
    assert forall|j: int| 0 <= j < TAG_COUNT implies #[trigger] decoded(
        before + seq![DecodedObject::Malformed] + after,
    )[j] == decoded(before + after)[j] by {
        lemma_skip_malformed_last(before, after, tag_at(j));
    }
    assert(decoded(before + seq![DecodedObject::Malformed] + after) =~= decoded(before + after));
}

} // verus!
