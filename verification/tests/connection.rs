use signal_relay::{Action, CloseFrame, Directive, Inbound, Message, Registry};
use tokio::sync::mpsc::error::TryRecvError;
use tokio::sync::mpsc::UnboundedReceiver;

fn enter(registry: &mut Registry) -> (usize, UnboundedReceiver<Message>) {
    match registry.connect() {
        Some(link) => link,
        None => panic!("identities used up"),
    }
}

#[test]
fn data_frames_are_relayed() {
    assert_eq!(Inbound::Frame(Message::Text("sdp".to_string())).action(), Action::Relay);
    assert_eq!(Inbound::Frame(Message::Binary(vec![1])).action(), Action::Relay);
}

#[test]
fn other_control_frames_are_ignored() {
    assert_eq!(Inbound::Frame(Message::Ping(vec![1])).action(), Action::Ignore);
    assert_eq!(Inbound::Frame(Message::Pong(vec![])).action(), Action::Ignore);
}

#[test]
fn close_end_and_failure_leave() {
    assert_eq!(Inbound::Frame(Message::Close(None)).action(), Action::Leave);
    let frame = CloseFrame { code: 1000, reason: String::new() };
    assert_eq!(Inbound::Frame(Message::Close(Some(frame))).action(), Action::Leave);
    assert_eq!(Inbound::Closed.action(), Action::Leave);
    assert_eq!(Inbound::Failed.action(), Action::Leave);
}

#[test]
fn an_inbound_text_frame_is_fanned_out() {
    let mut registry = Registry::new();
    let (a, mut rx_a) = enter(&mut registry);
    let (_b, mut rx_b) = enter(&mut registry);
    let frame = Message::Text("candidate".to_string());
    assert_eq!(registry.on_inbound(a, Inbound::Frame(frame.clone())), Directive::KeepReading);
    assert_eq!(rx_b.try_recv(), Ok(frame));
    assert_eq!(rx_a.try_recv(), Err(TryRecvError::Empty));
    assert_eq!(registry.len(), 2);
}

#[test]
fn an_inbound_binary_frame_reaps_dead_recipients() {
    let mut registry = Registry::new();
    let (a, _rx_a) = enter(&mut registry);
    let (b, rx_b) = enter(&mut registry);
    drop(rx_b);
    let next = registry.on_inbound(a, Inbound::Frame(Message::Binary(vec![5])));
    assert_eq!(next, Directive::KeepReading);
    assert!(!registry.contains(b));
    assert!(registry.contains(a));
}

#[test]
fn an_inbound_ping_changes_nothing() {
    let mut registry = Registry::new();
    let (a, mut rx_a) = enter(&mut registry);
    let (_b, mut rx_b) = enter(&mut registry);
    assert_eq!(registry.on_inbound(a, Inbound::Frame(Message::Ping(vec![1]))), Directive::KeepReading);
    assert_eq!(registry.on_inbound(a, Inbound::Frame(Message::Pong(vec![1]))), Directive::KeepReading);
    assert_eq!(rx_a.try_recv(), Err(TryRecvError::Empty));
    assert_eq!(rx_b.try_recv(), Err(TryRecvError::Empty));
    assert_eq!(registry.len(), 2);
}

#[test]
fn a_close_frame_deregisters_before_the_writer_stops() {
    let mut registry = Registry::new();
    let (a, mut rx_a) = enter(&mut registry);
    let (b, mut rx_b) = enter(&mut registry);
    assert_eq!(registry.on_inbound(a, Inbound::Frame(Message::Close(None))), Directive::StopWriter);
    assert!(!registry.contains(a));
    assert!(registry.contains(b));
    assert_eq!(rx_a.try_recv(), Err(TryRecvError::Disconnected));
    assert_eq!(rx_b.try_recv(), Err(TryRecvError::Empty));
}

#[test]
fn the_end_of_the_stream_deregisters() {
    let mut registry = Registry::new();
    let (a, _rx_a) = enter(&mut registry);
    assert_eq!(registry.on_inbound(a, Inbound::Closed), Directive::StopWriter);
    assert!(registry.is_empty());
}

#[test]
fn a_failed_read_deregisters() {
    let mut registry = Registry::new();
    let (a, _rx_a) = enter(&mut registry);
    let (b, _rx_b) = enter(&mut registry);
    assert_eq!(registry.on_inbound(b, Inbound::Failed), Directive::StopWriter);
    assert_eq!(registry.snapshot(), vec![a]);
}

#[test]
fn leaving_twice_is_harmless() {
    let mut registry = Registry::new();
    let (a, _rx_a) = enter(&mut registry);
    let (b, _rx_b) = enter(&mut registry);
    assert_eq!(registry.on_inbound(a, Inbound::Closed), Directive::StopWriter);
    assert_eq!(registry.on_inbound(a, Inbound::Failed), Directive::StopWriter);
    assert_eq!(registry.snapshot(), vec![b]);
}

#[test]
fn a_whole_session() {
    let mut registry = Registry::new();
    let (a, mut rx_a) = enter(&mut registry);
    let (b, mut rx_b) = enter(&mut registry);
    let offer = Message::Text("offer".to_string());
    let answer = Message::Text("answer".to_string());
    assert_eq!(registry.on_inbound(a, Inbound::Frame(offer.clone())), Directive::KeepReading);
    assert_eq!(registry.on_inbound(b, Inbound::Frame(answer.clone())), Directive::KeepReading);
    assert_eq!(registry.on_inbound(a, Inbound::Closed), Directive::StopWriter);
    assert_eq!(registry.on_inbound(b, Inbound::Frame(offer.clone())), Directive::KeepReading);
    assert_eq!(rx_b.try_recv(), Ok(offer));
    assert_eq!(rx_b.try_recv(), Err(TryRecvError::Empty));
    assert_eq!(rx_a.try_recv(), Ok(answer));
    assert_eq!(rx_a.try_recv(), Err(TryRecvError::Disconnected));
}
