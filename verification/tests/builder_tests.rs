//! The build orchestrator: classification of engine messages and the
//! forwarding order over a scripted stream.

use container_core::build_step;
use container_core::classify_message;
use container_core::message_forward_texts;
use container_core::BuildAction;
use container_core::BuildEvent;
use container_core::BuildMessage;
use container_core::BuildStreamEvent;
use container_core::generate_dockerfile;
use container_core::new_build_request;
use container_core::EngineError;

fn msg(stream: Option<&str>, status: Option<&str>) -> BuildMessage {
    BuildMessage {
        stream: stream.map(|s| s.to_string()),
        status: status.map(|s| s.to_string()),
    }
}

#[test]
fn scripted_stream_forwards_texts_in_arrival_order() {
    let stream = vec![
        msg(Some("Step 1/2"), None),
        msg(None, Some("Pulling")),
        msg(Some("Step 2/2"), None),
    ];
    let mut sink: Vec<String> = Vec::new();
    for m in stream {
        match build_step(true, BuildStreamEvent::Message(m)) {
            BuildAction::ForwardAll(texts) => sink.extend(texts),
            other => panic!("unexpected action: {:?}", other),
        }
    }
    assert_eq!(sink, vec!["Step 1/2", "Pulling", "Step 2/2"]);
}

#[test]
fn forward_plan_concatenates_message_texts_in_arrival_order() {
    let msgs = vec![
        msg(Some("Step 1/2"), None),
        msg(Some("Step 2/2"), Some("Pulling")),
        msg(None, None),
        msg(None, Some("Built")),
    ];
    let plan = container_core::forward_plan(&msgs);
    assert_eq!(plan, vec!["Step 1/2", "Step 2/2", "Pulling", "Built"]);
}

#[test]
fn a_message_with_both_fields_forwards_stream_text_first() {
    let texts = message_forward_texts(msg(Some("log line"), Some("status line")));
    assert_eq!(texts, vec!["log line".to_string(), "status line".to_string()]);
}

#[test]
fn an_empty_message_forwards_nothing() {
    let texts = message_forward_texts(msg(None, None));
    assert!(texts.is_empty());
}

#[test]
fn classification_tags_each_present_field() {
    let events = classify_message(msg(Some("a"), Some("b")));
    assert_eq!(
        events,
        vec![
            BuildEvent::Stream("a".to_string()),
            BuildEvent::Status("b".to_string()),
        ]
    );
    assert_eq!(
        classify_message(msg(None, Some("only status"))),
        vec![BuildEvent::Status("only status".to_string())]
    );
    assert!(classify_message(msg(None, None)).is_empty());
}

#[test]
fn without_a_sink_nothing_is_forwarded() {
    match build_step(false, BuildStreamEvent::Message(msg(Some("a"), Some("b")))) {
        BuildAction::ForwardAll(texts) => assert!(texts.is_empty()),
        other => panic!("unexpected action: {:?}", other),
    }
}

#[test]
fn stream_end_is_success() {
    assert_eq!(build_step(true, BuildStreamEvent::Finished), BuildAction::Succeed);
}

#[test]
fn transport_failure_aborts_the_build() {
    assert_eq!(
        build_step(true, BuildStreamEvent::TransportFailed("reset".to_string())),
        BuildAction::Fail(EngineError::Transport("reset".to_string()))
    );
}

#[test]
fn rejected_forward_aborts_with_the_sink_error() {
    assert_eq!(
        build_step(true, BuildStreamEvent::SinkRejected),
        BuildAction::Fail(EngineError::SinkClosed)
    );
}

#[test]
fn a_build_request_carries_the_name_and_the_packaged_context() {
    let request = new_build_request("demo".to_string());
    assert_eq!(request.image_name, "demo");
    assert_eq!(request.build_context, generate_dockerfile());
}

#[test]
fn sink_error_text_names_the_closed_sink() {
    assert_eq!(EngineError::SinkClosed.describe(), "event sink is closed");
}
