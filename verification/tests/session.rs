use session_driver::driver::Action;
use session_driver::driver::RequestEnvelope;
use session_driver::driver::SessionDriver;
use session_driver::protocol::CompletionReport;
use session_driver::protocol::InboundPayload;
use session_driver::protocol::OutboundMessage;
use session_driver::protocol::SessionError;
use session_driver::protocol::WorkItem;
use session_driver::protocol::dispatch_work;
use session_driver::protocol::do_buy_event;
use session_driver::protocol::do_cook_event;
use session_driver::protocol::do_wash_event;

#[test]
fn first_request_is_untokened_heartbeat() {
    let driver = SessionDriver::new();
    assert!(driver.is_running());
    let env = driver.next_request().expect("the initial request must build");
    assert_eq!(env.token, None);
    match env.message {
        OutboundMessage::Heartbeat { heartbeat } => {
            assert_eq!(heartbeat.sequence_number, 1);
            assert_eq!(heartbeat.agent_id, "agent_1".to_string());
        }
        other => panic!("expected a heartbeat, got {:?}", other),
    }
}

#[test]
fn full_session_scenario() {
    let responses = vec![
        (
            Some("t1".to_string()),
            Some(InboundPayload::Work { item: WorkItem::Buy { instruction: "carrots".to_string() } }),
        ),
        (
            Some("t1".to_string()),
            Some(InboundPayload::Work { item: WorkItem::Wash { instruction: "carrots".to_string() } }),
        ),
        (
            Some("t1".to_string()),
            Some(InboundPayload::Work { item: WorkItem::Cook { instruction: "stew".to_string() } }),
        ),
        (Some("t1".to_string()), Some(InboundPayload::SentinelDone)),
    ];

    let mut driver = SessionDriver::new();
    let mut sent: Vec<RequestEnvelope> = Vec::new();
    let mut inbound = responses.into_iter();
    while driver.is_running() {
        let env = driver.next_request().expect("every request of this session must build");
        sent.push(env);
        let (token, payload) = inbound.next().expect("the driver must not ask for a fifth response");
        let action = driver
            .handle_response(token, payload)
            .expect("every response of this session carries a token");
        match action {
            Action::Invoke { item } => {
                let token = driver.current_token().clone().expect("a token is held while dispatching");
                let report = dispatch_work(&item, token.as_str());
                driver.report_completion(report);
            }
            Action::Stop => {}
        }
    }

    assert_eq!(sent.len(), 4);
    assert_eq!(sent[0].token, None);
    assert!(matches!(sent[0].message, OutboundMessage::Heartbeat { .. }));
    for env in &sent[1..] {
        assert_eq!(env.token, Some("t1".to_string()));
        match &env.message {
            OutboundMessage::Report { report } => assert_eq!(report.code, 1),
            other => panic!("expected a completion report, got {:?}", other),
        }
    }
    assert!(inbound.next().is_none());
}

#[test]
fn missing_token_ends_session_before_second_request() {
    let mut driver = SessionDriver::new();
    let first = driver.next_request().expect("the initial request must build");
    assert_eq!(first.token, None);
    let err = driver
        .handle_response(
            None,
            Some(InboundPayload::Work { item: WorkItem::Buy { instruction: "carrots".to_string() } }),
        )
        .expect_err("a response without a token is fatal");
    assert_eq!(err, SessionError::MissingCorrelationToken);
    assert!(!driver.is_running());
    assert_eq!(driver.current_token(), &None);
}

#[test]
fn error_reset_clears_token() {
    let mut driver = SessionDriver::new();
    let action = driver
        .handle_response(
            Some("t3".to_string()),
            Some(InboundPayload::Work { item: WorkItem::Wash { instruction: "beets".to_string() } }),
        )
        .expect("a tokened response is absorbed");
    assert!(matches!(action, Action::Invoke { .. }));
    driver.report_completion(CompletionReport { code: 1, message: "washing done".to_string() });
    assert_eq!(driver.current_token(), &Some("t3".to_string()));

    let action = driver
        .handle_response(Some("t4".to_string()), None)
        .expect("an absent payload is a defined terminal state, not an error");
    assert!(matches!(action, Action::Stop));
    assert!(!driver.is_running());
    assert_eq!(driver.current_token(), &None);
    assert!(matches!(driver.current_outbound(), OutboundMessage::Empty));
}

#[test]
fn graceful_stop_keeps_token_and_invokes_no_handler() {
    let mut driver = SessionDriver::new();
    let action = driver
        .handle_response(Some("t9".to_string()), Some(InboundPayload::SentinelDone))
        .expect("the sentinel is absorbed");
    assert!(matches!(action, Action::Stop));
    assert!(!driver.is_running());
    assert!(!driver.is_dispatching());
    assert_eq!(driver.current_token(), &Some("t9".to_string()));
    assert!(matches!(driver.current_outbound(), OutboundMessage::Empty));
}

#[test]
fn dispatch_covers_every_variant() {
    let buy = dispatch_work(&WorkItem::Buy { instruction: "carrots".to_string() }, "t1");
    assert_eq!(buy, CompletionReport { code: 1, message: "buying done".to_string() });

    let wash = dispatch_work(&WorkItem::Wash { instruction: "carrots".to_string() }, "t1");
    assert_eq!(wash, CompletionReport { code: 1, message: "washing done".to_string() });

    let cook = dispatch_work(&WorkItem::Cook { instruction: "stew".to_string() }, "t1");
    assert_eq!(cook, CompletionReport { code: 1, message: "cooking done".to_string() });

    for report in [buy, wash, cook] {
        assert_eq!(report.code, 1);
        assert!(!report.message.is_empty());
    }
}

#[test]
fn handlers_produce_success_reports() {
    assert_eq!(do_buy_event("carrots", "t1").message, "buying done".to_string());
    assert_eq!(do_wash_event("carrots", "t1").message, "washing done".to_string());
    assert_eq!(do_cook_event("stew", "t1").message, "cooking done".to_string());
    assert_eq!(do_buy_event("", "").code, 1);
    assert_eq!(do_wash_event("", "").code, 1);
    assert_eq!(do_cook_event("", "").code, 1);
}

#[test]
fn unencodable_token_fails_fast() {
    let mut driver = SessionDriver::new();
    let action = driver
        .handle_response(
            Some("bad\ntoken".to_string()),
            Some(InboundPayload::Work { item: WorkItem::Buy { instruction: "carrots".to_string() } }),
        )
        .expect("the response itself is well-formed");
    assert!(matches!(action, Action::Invoke { .. }));
    driver.report_completion(CompletionReport { code: 1, message: "buying done".to_string() });
    let err = driver
        .next_request()
        .expect_err("a token with a control character cannot enter the metadata encoding");
    assert_eq!(err, SessionError::TokenNotEncodable);
}

#[test]
fn utf8_token_is_encodable() {
    let mut driver = SessionDriver::new();
    driver
        .handle_response(
            Some("task-42-菜".to_string()),
            Some(InboundPayload::Work { item: WorkItem::Buy { instruction: "rice".to_string() } }),
        )
        .expect("a tokened response is absorbed");
    driver.report_completion(CompletionReport { code: 1, message: "buying done".to_string() });
    let env = driver
        .next_request()
        .expect("an arbitrary UTF-8 token must pass the metadata encoding");
    assert_eq!(env.token, Some("task-42-菜".to_string()));
}

#[test]
fn tokened_request_echoes_latest_token() {
    let mut driver = SessionDriver::new();
    driver
        .handle_response(
            Some("first".to_string()),
            Some(InboundPayload::Work { item: WorkItem::Cook { instruction: "stew".to_string() } }),
        )
        .expect("a tokened response is absorbed");
    driver.report_completion(CompletionReport { code: 1, message: "cooking done".to_string() });
    let env = driver.next_request().expect("an ordinary token must encode");
    assert_eq!(env.token, Some("first".to_string()));

    driver
        .handle_response(
            Some("second".to_string()),
            Some(InboundPayload::Work { item: WorkItem::Cook { instruction: "soup".to_string() } }),
        )
        .expect("a tokened response is absorbed");
    driver.report_completion(CompletionReport { code: 1, message: "cooking done".to_string() });
    let env = driver.next_request().expect("an ordinary token must encode");
    assert_eq!(env.token, Some("second".to_string()));
}

#[test]
fn failure_report_is_forwarded_without_aborting() {
    let mut driver = SessionDriver::new();
    driver
        .handle_response(
            Some("t5".to_string()),
            Some(InboundPayload::Work { item: WorkItem::Buy { instruction: "leeks".to_string() } }),
        )
        .expect("a tokened response is absorbed");
    driver.report_completion(CompletionReport { code: 0, message: "market closed".to_string() });
    assert!(driver.is_running());
    let env = driver.next_request().expect("an ordinary token must encode");
    match env.message {
        OutboundMessage::Report { report } => {
            assert_eq!(report.code, 0);
            assert_eq!(report.message, "market closed".to_string());
        }
        other => panic!("expected a completion report, got {:?}", other),
    }
}
