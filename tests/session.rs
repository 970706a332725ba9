use std::cell::RefCell;
use std::rc::Rc;

use obniz::endpoint::{endpoint_text, endpoint_url, redirect_host};
use obniz::error::ObnizError;
use obniz::frame::{parse_frame, Shape};
use obniz::key::{correlation_key, is_key};
use obniz::registry::CallbackType;
use obniz::session::{
    call_commands, call_outcome, CallError, Delivery, Event, ObnizCommand, Session, Step,
};
use serde_json::Value;
use tokio::sync::oneshot;

type Handler = Box<dyn Fn(Value)>;
type Reply = oneshot::Sender<Value>;

fn doc(text: &str) -> Value {
    serde_json::from_str(text).unwrap()
}

fn frame(session: &mut Session<Reply, Handler>, text: &str) -> usize {
    match session.step(Event::Frame(text.to_string())) {
        Step::Deliver(document, deliveries) => {
            let n = deliveries.len();
            for d in deliveries {
                match d {
                    Delivery::Resolve { responder, .. } => {
                        let _ = responder.send(document.clone());
                    }
                    Delivery::Invoke { key, element } => {
                        let element = match element {
                            Some(i) => document[i].clone(),
                            None => document.clone(),
                        };
                        (session.handler(&key).unwrap())(element);
                    }
                }
            }
            n
        }
        Step::Malformed => 0,
        _ => panic!("a frame gives Deliver or Malformed"),
    }
}

fn subscribe(session: &mut Session<Reply, Handler>, key: &str, seen: &Rc<RefCell<Vec<Value>>>) {
    let seen = seen.clone();
    let handler: Handler = Box::new(move |v| seen.borrow_mut().push(v));
    let step = session.step(Event::Outbound(ObnizCommand::RegisterCallback {
        key: key.to_string(),
        callback: CallbackType::Persistent(handler),
    }));
    assert!(matches!(step, Step::Idle));
}

fn call(session: &mut Session<Reply, Handler>, payload: &str, key: &str) -> oneshot::Receiver<Value> {
    let (tx, rx) = oneshot::channel::<Value>();
    let (register, send) = call_commands(payload.to_string(), key.to_string(), tx);
    assert!(matches!(session.step(Event::Outbound(register)), Step::Idle));
    match session.step(Event::Outbound(send)) {
        Step::Write(m) => assert_eq!(m, payload),
        _ => panic!("a send gives Write"),
    }
    rx
}

#[test]
fn call_returns_reply_document() {
    let mut s: Session<Reply, Handler> = Session::new();
    let mut rx = call(&mut s, "[{\"io0\": \"get\"}]", "io0");
    assert_eq!(frame(&mut s, "[{\"io0\": false}]"), 1);
    let got = call_outcome(rx.try_recv().ok()).unwrap();
    assert_eq!(got, doc("[{\"io0\": false}]"));
    assert!(!s.is_registered(&"io0".to_string()));
    assert_eq!(s.pending(), 0);
}

#[test]
fn switch_subscription_sees_each_element() {
    let mut s: Session<Reply, Handler> = Session::new();
    let seen = Rc::new(RefCell::new(Vec::new()));
    subscribe(&mut s, "switch", &seen);
    frame(&mut s, "[{\"switch\":{\"state\":\"push\",\"action\":\"push\"}}]");
    frame(&mut s, "[{\"switch\":{\"state\":\"none\",\"action\":\"release\"}}]");
    let seen = seen.borrow();
    assert_eq!(seen.len(), 2);
    assert_eq!(seen[0], doc("{\"switch\":{\"state\":\"push\",\"action\":\"push\"}}"));
    assert_eq!(seen[1], doc("{\"switch\":{\"state\":\"none\",\"action\":\"release\"}}"));
    assert!(s.is_registered(&"switch".to_string()));
}

#[test]
fn subscription_beside_pending_call() {
    let mut s: Session<Reply, Handler> = Session::new();
    let seen = Rc::new(RefCell::new(Vec::new()));
    subscribe(&mut s, "io1", &seen);
    let mut rx = call(&mut s, "[{\"ad2\": \"get\"}]", "ad2");
    frame(&mut s, "[{\"io1\": true}]");
    frame(&mut s, "[{\"ad2\": 3}]");
    frame(&mut s, "[{\"io1\": false}]");
    frame(&mut s, "[{\"io1\": true}]");
    assert_eq!(frame(&mut s, "[{\"ad2\": 4}]"), 0);
    assert_eq!(seen.borrow().len(), 3);
    assert_eq!(rx.try_recv().unwrap(), doc("[{\"ad2\": 3}]"));
    assert!(!s.is_registered(&"ad2".to_string()));
    assert!(s.is_registered(&"io1".to_string()));
    assert_eq!(s.pending(), 1);
}

#[test]
fn new_registration_replaces_old() {
    let mut s: Session<Reply, Handler> = Session::new();
    let first = Rc::new(RefCell::new(Vec::new()));
    let second = Rc::new(RefCell::new(Vec::new()));
    subscribe(&mut s, "display", &first);
    subscribe(&mut s, "display", &second);
    frame(&mut s, "[{\"display\": {\"text\": \"hi\"}}]");
    assert_eq!(first.borrow().len(), 0);
    assert_eq!(second.borrow().len(), 1);
    assert_eq!(s.pending(), 1);
}

#[test]
fn subscription_replaces_pending_call() {
    let mut s: Session<Reply, Handler> = Session::new();
    let mut rx = call(&mut s, "[{\"io4\": \"get\"}]", "io4");
    let seen = Rc::new(RefCell::new(Vec::new()));
    subscribe(&mut s, "io4", &seen);
    assert_eq!(
        call_outcome(rx.try_recv().ok()),
        Err::<Value, CallError>(CallError::Disconnected)
    );
    frame(&mut s, "[{\"io4\": true}]");
    assert_eq!(seen.borrow().len(), 1);
}

#[test]
fn call_waits_through_unrelated_frames() {
    let mut s: Session<Reply, Handler> = Session::new();
    let mut rx = call(&mut s, "[{\"io3\": \"get\"}]", "io3");
    assert_eq!(frame(&mut s, "[{\"io1\": true}]"), 0);
    assert_eq!(frame(&mut s, "[{\"display\": {\"text\": \"hi\"}}]"), 0);
    assert_eq!(frame(&mut s, "[{\"ws\": {\"ready\": true}}]"), 0);
    assert!(rx.try_recv().is_err());
    assert_eq!(frame(&mut s, "[{\"io2\": false}, {\"io3\": true}]"), 1);
    assert_eq!(rx.try_recv().unwrap(), doc("[{\"io2\": false}, {\"io3\": true}]"));
}

#[test]
fn closing_queue_disconnects_pending_call() {
    let mut s: Session<Reply, Handler> = Session::new();
    let mut rx = call(&mut s, "[{\"io0\": \"get\"}]", "io0");
    assert!(matches!(s.step(Event::QueueClosed), Step::Stop));
    drop(s);
    assert_eq!(
        call_outcome(rx.try_recv().ok()),
        Err::<Value, CallError>(CallError::Disconnected)
    );
}

#[test]
fn connection_end_stops_session() {
    let mut s: Session<Reply, Handler> = Session::new();
    assert!(matches!(s.step(Event::ConnectionClosed), Step::Stop));
    assert!(matches!(s.step(Event::ReadFailed), Step::Idle));
}

#[test]
fn malformed_frame_is_dropped() {
    let mut s: Session<Reply, Handler> = Session::new();
    let mut rx = call(&mut s, "[{\"io5\": \"get\"}]", "io5");
    assert!(matches!(s.step(Event::Frame("[{\"io5\": tru".to_string())), Step::Malformed));
    assert!(matches!(s.step(Event::Frame("not json".to_string())), Step::Malformed));
    assert!(s.is_registered(&"io5".to_string()));
    assert_eq!(frame(&mut s, "[{\"io5\": true}]"), 1);
    assert_eq!(rx.try_recv().unwrap(), doc("[{\"io5\": true}]"));
}

#[test]
fn unregister_is_quiet_on_absent_key() {
    let mut s: Session<Reply, Handler> = Session::new();
    let step = s.step(Event::Outbound(ObnizCommand::UnregisterCallback { key: "io9".to_string() }));
    assert!(matches!(step, Step::Idle));
    let seen = Rc::new(RefCell::new(Vec::new()));
    subscribe(&mut s, "io9", &seen);
    s.step(Event::Outbound(ObnizCommand::UnregisterCallback { key: "io9".to_string() }));
    assert_eq!(s.pending(), 0);
    assert_eq!(frame(&mut s, "[{\"io9\": true}]"), 0);
    assert_eq!(seen.borrow().len(), 0);
}

#[test]
fn single_object_document_is_one_element() {
    let mut s: Session<Reply, Handler> = Session::new();
    let seen = Rc::new(RefCell::new(Vec::new()));
    subscribe(&mut s, "system", &seen);
    match s.step(Event::Frame("{\"system\": {\"pon\": 1}}".to_string())) {
        Step::Deliver(_, ds) => {
            assert_eq!(ds.len(), 1);
            assert!(matches!(&ds[0], Delivery::Invoke { element: None, .. }));
        }
        _ => panic!("valid JSON is delivered"),
    }
}

#[test]
fn element_positions_in_array() {
    let mut s: Session<Reply, Handler> = Session::new();
    let seen = Rc::new(RefCell::new(Vec::new()));
    subscribe(&mut s, "uart0", &seen);
    match s.step(Event::Frame("[{\"io1\": 1}, {\"uart0\": {\"data\": [1]}}, 7]".to_string())) {
        Step::Deliver(_, ds) => {
            assert_eq!(ds.len(), 1);
            assert!(matches!(&ds[0], Delivery::Invoke { element: Some(1), .. }));
        }
        _ => panic!("valid JSON is delivered"),
    }
}

#[test]
fn parse_frame_layout() {
    match parse_frame("{\"b\": 1, \"a\": 2}") {
        Ok(f) => match f.shape {
            Shape::Single(fields) => assert_eq!(fields, vec!["a".to_string(), "b".to_string()]),
            _ => panic!("an object is a single element"),
        },
        Err(_) => panic!("valid JSON parses"),
    }
    match parse_frame("[{\"io0\": true}, 3, {\"x\": 1, \"display\": 2}]") {
        Ok(f) => match f.shape {
            Shape::Sequence(items) => {
                assert_eq!(items.len(), 3);
                assert_eq!(items[0], vec!["io0".to_string()]);
                assert!(items[1].is_empty());
                assert_eq!(items[2], vec!["display".to_string(), "x".to_string()]);
            }
            _ => panic!("an array is a sequence"),
        },
        Err(_) => panic!("valid JSON parses"),
    }
    assert!(parse_frame("").is_err());
    assert!(parse_frame("[{\"io0\": }]").is_err());
}

#[test]
fn allow_list_of_keys() {
    for k in ["display", "switch", "system", "ws", "io0", "io11", "ad0", "ad11", "pwm0", "pwm5", "uart0", "uart2"] {
        assert!(is_key(&k.to_string()), "{}", k);
    }
    for k in ["io12", "ad12", "pwm6", "uart3", "io", "io01", "io-1", "debug", "Display", ""] {
        assert!(!is_key(&k.to_string()), "{}", k);
    }
}

#[test]
fn first_listed_field_wins() {
    let fields = vec!["foo".to_string(), "io12".to_string(), "pwm3".to_string(), "io1".to_string()];
    assert_eq!(correlation_key(&fields), Some("pwm3".to_string()));
    let none = vec!["debug".to_string(), "ready".to_string()];
    assert_eq!(correlation_key(&none), None);
    assert_eq!(correlation_key(&Vec::new()), None);
}

#[test]
fn endpoint_address() {
    assert_eq!(
        endpoint_text("wss://obniz.io", "1234-5678").unwrap(),
        "wss://obniz.io/obniz/1234-5678/ws/1"
    );
    match endpoint_text("ws://obniz.io", "1234-5678") {
        Err(e) => assert_eq!(e.to_string(), "Connection error: Illegal url, host needs to start with 'wss://'"),
        Ok(_) => panic!("only secure hosts"),
    }
    let url = endpoint_url("wss://a.obniz.io", "0000-0000").unwrap();
    assert_eq!(url.as_str(), "wss://a.obniz.io/obniz/0000-0000/ws/1");
    assert!(endpoint_url("wss://[bad", "x").is_err());
}

#[test]
fn redirect_host_of_greeting() {
    assert_eq!(
        redirect_host("[{\"ws\":{\"redirect\":\"wss://a.obniz.io\"}}]").unwrap(),
        "wss://a.obniz.io"
    );
    let message = |r: Result<String, ObnizError>| match r {
        Err(e) => e.to_string(),
        Ok(h) => h,
    };
    assert_eq!(message(redirect_host("[{\"ws\":{\"ready\":true}}]")), "Connection error: Failed to get redirect host name");
    assert_eq!(message(redirect_host("[{\"ws\":{\"redirect\":\"\"}}]")), "Connection error: Redirect host name is empty");
    assert_eq!(message(redirect_host("[{\"ws\":{\"redirect\":\"http://x\"}}]")), "Connection error: Redirect host name is bad format");
    assert_eq!(message(redirect_host("[{\"ws\":")), "JSON parse error: Failed to parse json");
}
