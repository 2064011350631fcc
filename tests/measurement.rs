use dsmr_reader::measurement::{message, DataObject, DecodedObject, Measurements, Value};
use dsmr_reader::tags::Tag;

fn obj(tag: Tag, value: Value) -> DecodedObject {
    DecodedObject::Recognized(DataObject { tag, value })
}

fn kw(digits: u64) -> Value {
    Value::Fixed { digits, point: 3 }
}

fn topics_and_payloads(objs: &Vec<DecodedObject>, prefix: &str) -> Vec<(String, String)> {
    Measurements::from_objects(objs)
        .into_mqtt_messages(prefix, rumqttc::QoS::AtMostOnce)
        .into_iter()
        .map(|m| (m.topic, m.payload))
        .collect()
}

#[test]
fn last_occurrence_wins() {
    let objs = vec![
        obj(Tag::PowerDelivered, kw(1193)),
        obj(Tag::PowerReceived, kw(0)),
        obj(Tag::PowerDelivered, kw(2500)),
    ];
    let m = Measurements::from_objects(&objs);
    assert_eq!(m.get(Tag::PowerDelivered), Some(kw(2500)));
    assert_eq!(m.get(Tag::PowerReceived), Some(kw(0)));
    assert_eq!(m.get(Tag::GasVolume), None);
    assert!(!m.is_empty());
}

#[test]
fn one_message_per_populated_field() {
    let objs = vec![
        obj(Tag::PowerDelivered, kw(1193)),
        obj(Tag::EnergyDeliveredTariff1, Value::Fixed { digits: 576239, point: 3 }),
        obj(Tag::PowerFailures, Value::Count(9)),
        obj(Tag::PowerDelivered, kw(1200)),
        obj(Tag::VoltageL1, Value::Fixed { digits: 2301, point: 1 }),
        obj(Tag::GasVolume, Value::Fixed { digits: 12785123, point: 3 }),
    ];
    let got = topics_and_payloads(&objs, "dsmr");
    let want: Vec<(String, String)> = vec![
        ("dsmr/power/delivered", "1.200"),
        ("dsmr/energy/delivered/tariff1", "576.239"),
        ("dsmr/power/failures", "9"),
        ("dsmr/voltage/l1", "230.1"),
        ("dsmr/gas/volume", "12785.123"),
    ]
    .into_iter()
    .map(|(t, p)| (t.to_string(), p.to_string()))
    .collect();
    assert_eq!(got, want);
}

#[test]
fn no_recognized_objects_no_messages() {
    let objs = vec![DecodedObject::Unrecognized, DecodedObject::Malformed];
    let m = Measurements::from_objects(&objs);
    assert!(m.is_empty());
    assert!(m.into_mqtt_messages("dsmr", rumqttc::QoS::AtMostOnce).is_empty());
    assert!(topics_and_payloads(&vec![], "dsmr").is_empty());
}

#[test]
fn malformed_object_is_skipped() {
    let objs = vec![
        obj(Tag::PowerDelivered, kw(1193)),
        DecodedObject::Malformed,
        obj(Tag::CurrentL2, Value::Count(4)),
    ];
    let got = topics_and_payloads(&objs, "home/meter");
    assert_eq!(
        got,
        vec![
            ("home/meter/power/delivered".to_string(), "1.193".to_string()),
            ("home/meter/current/l2".to_string(), "4".to_string()),
        ]
    );
}

#[test]
fn messages_carry_the_given_qos() {
    let objs = vec![obj(Tag::PowerReceived, kw(5)), obj(Tag::LongPowerFailures, Value::Count(0))];
    let ms = Measurements::from_objects(&objs).into_mqtt_messages("p", rumqttc::QoS::ExactlyOnce);
    assert_eq!(ms.len(), 2);
    assert!(ms.iter().all(|m| m.qos == rumqttc::QoS::ExactlyOnce));
    assert_eq!(ms[0].payload, "0.005");
    assert_eq!(ms[1].topic, "p/power/failures/long");
}

#[test]
fn payload_texts() {
    let q = rumqttc::QoS::AtMostOnce;
    assert_eq!(message("x", Tag::PowerDelivered, kw(0), q).payload, "0.000");
    assert_eq!(message("x", Tag::PowerDelivered, Value::Fixed { digits: 7, point: 0 }, q).payload, "7");
    assert_eq!(message("x", Tag::PowerDelivered, Value::Count(u64::MAX), q).payload, "18446744073709551615");
    assert_eq!(message("x", Tag::PowerDelivered, Value::Fixed { digits: 1005, point: 2 }, q).payload, "10.05");
    assert_eq!(message("", Tag::VoltageL3, Value::Count(10), q).topic, "/voltage/l3");
}

#[test]
fn tags_round_trip_through_positions() {
    for i in 0..dsmr_reader::tags::TAG_COUNT {
        assert_eq!(Tag::at(i).index(), i);
    }
    assert_eq!(Tag::GasVolume.name(), "gas/volume");
}
