use dsmr_reader::measurement::{DataObject, DecodedObject, Value};
use dsmr_reader::pipeline::{Action, FrameError, Phase, Pipeline, RunError, SourceItem};
use dsmr_reader::supervisor::{CycleEnd, Supervisor, SupervisorAction, SupervisorPhase};
use dsmr_reader::tags::Tag;

fn telegram(objs: &[(Tag, u64)]) -> SourceItem {
    SourceItem::Telegram(
        objs.iter()
            .map(|(tag, n)| DecodedObject::Recognized(DataObject { tag: *tag, value: Value::Count(*n) }))
            .collect(),
    )
}

/// Drives a pipeline over a scripted source with a client that accepts every
/// message until `fail_at` submissions have been made; returns the submitted
/// topics and payloads and the error the pipeline stopped with.
fn drive(mut src: Vec<SourceItem>, fail_at: Option<usize>) -> (Vec<(String, String)>, RunError) {
    src.reverse();
    let mut p = Pipeline::new("t".to_string(), rumqttc::QoS::AtMostOnce);
    let mut submitted = Vec::new();
    let mut action = Action::ReadTelegram;
    loop {
        action = match action {
            Action::ReadTelegram => {
                assert_eq!(p.phase(), Phase::Reading);
                p.on_item(src.pop().unwrap_or(SourceItem::Exhausted))
            }
            Action::Publish(m) => {
                assert_eq!(p.phase(), Phase::Publishing);
                submitted.push((m.topic, m.payload));
                p.on_published(Some(submitted.len()) != fail_at)
            }
            Action::Stop(e) => {
                assert_eq!(p.phase(), Phase::Stopped(e));
                return (submitted, e);
            }
        };
    }
}

fn pairs(v: &[(&str, &str)]) -> Vec<(String, String)> {
    v.iter().map(|(a, b)| (a.to_string(), b.to_string())).collect()
}

#[test]
fn telegrams_publish_in_order() {
    let src = vec![
        telegram(&[(Tag::PowerFailures, 1), (Tag::CurrentL1, 2)]),
        telegram(&[(Tag::CurrentL1, 3)]),
        telegram(&[(Tag::PowerFailures, 4), (Tag::CurrentL3, 5)]),
    ];
    let (sent, err) = drive(src, None);
    assert_eq!(
        sent,
        pairs(&[
            ("t/power/failures", "1"),
            ("t/current/l1", "2"),
            ("t/current/l1", "3"),
            ("t/power/failures", "4"),
            ("t/current/l3", "5"),
        ])
    );
    assert_eq!(err, RunError::EndOfStream);
}

#[test]
fn exhausted_source_is_end_of_stream() {
    let (sent, err) = drive(vec![], None);
    assert!(sent.is_empty());
    assert_eq!(err, RunError::EndOfStream);
}

#[test]
fn telegram_without_messages_reads_on() {
    let src = vec![SourceItem::Telegram(vec![DecodedObject::Unrecognized]), telegram(&[(Tag::CurrentL2, 8)])];
    let (sent, err) = drive(src, None);
    assert_eq!(sent, pairs(&[("t/current/l2", "8")]));
    assert_eq!(err, RunError::EndOfStream);
}

#[test]
fn publish_failure_stops_the_telegram() {
    let src = vec![
        telegram(&[(Tag::PowerFailures, 1), (Tag::CurrentL1, 2), (Tag::CurrentL2, 3)]),
        telegram(&[(Tag::CurrentL1, 4)]),
    ];
    let (sent, err) = drive(src, Some(2));
    assert_eq!(sent, pairs(&[("t/power/failures", "1"), ("t/current/l1", "2")]));
    assert_eq!(err, RunError::Publish);
}

#[test]
fn decode_failure_on_third_telegram_then_disconnect_before_sleep() {
    let src = vec![
        telegram(&[(Tag::PowerFailures, 1)]),
        telegram(&[(Tag::CurrentL1, 2), (Tag::CurrentL2, 3)]),
        SourceItem::DecodeFailed(FrameError::InvalidChecksum),
        telegram(&[(Tag::CurrentL3, 9)]),
    ];
    let (sent, err) = drive(src, None);
    assert_eq!(
        sent,
        pairs(&[("t/power/failures", "1"), ("t/current/l1", "2"), ("t/current/l2", "3")])
    );
    assert_eq!(err, RunError::Decode(FrameError::InvalidChecksum));

    let mut s = Supervisor::new();
    assert_eq!(s.phase(), SupervisorPhase::Running);
    let a = s.on_cycle_end(CycleEnd::PipelineFailed(err));
    assert_eq!(a, SupervisorAction::Disconnect);
    assert_eq!(s.phase(), SupervisorPhase::Disconnecting(CycleEnd::PipelineFailed(err)));
    assert_eq!(s.on_disconnected(true), SupervisorAction::Sleep(5));
    assert_eq!(s.on_slept(), SupervisorAction::StartCycle);
    assert_eq!(s.phase(), SupervisorPhase::Running);
    assert_eq!(s.restarts(), 1);
}

#[test]
fn failed_disconnect_still_restarts() {
    let mut s = Supervisor::new();
    assert_eq!(s.on_cycle_end(CycleEnd::PumpStopped), SupervisorAction::Disconnect);
    assert_eq!(s.on_disconnected(false), SupervisorAction::Sleep(5));
    assert_eq!(s.phase(), SupervisorPhase::Restarting);
    assert_eq!(s.on_slept(), SupervisorAction::StartCycle);
    assert_eq!(s.on_cycle_end(CycleEnd::PipelineFailed(RunError::Serial)), SupervisorAction::Disconnect);
    assert_eq!(s.on_disconnected(true), SupervisorAction::Sleep(5));
    assert_eq!(s.on_slept(), SupervisorAction::StartCycle);
    assert_eq!(s.restarts(), 2);
}

#[test]
fn decoder_errors_map_to_frame_errors() {
    assert_eq!(FrameError::from_decoder(dsmr5::Error::InvalidFormat), FrameError::InvalidFormat);
    assert_eq!(FrameError::from_decoder(dsmr5::Error::InvalidChecksum), FrameError::InvalidChecksum);
    assert_eq!(FrameError::from_decoder(dsmr5::Error::UnknownObis), FrameError::UnknownObis);
}
