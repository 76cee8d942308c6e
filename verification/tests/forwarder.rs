use notifico::forwarder::{link_start, link_step, LinkAction, LinkEvent, LinkStage};

#[test]
fn link_sets_up_then_forwards() {
    let (stage, action) = link_start();
    assert_eq!(stage, LinkStage::Connecting);
    assert!(matches!(action, LinkAction::Connect));
    let (stage, action) = link_step(stage, LinkEvent::Connected(Ok(())));
    assert!(matches!(action, LinkAction::BeginSession));
    let (stage, action) = link_step(stage, LinkEvent::SessionBegun(Ok(())));
    assert!(matches!(action, LinkAction::AttachLink));
    let (stage, action) = link_step(stage, LinkEvent::LinkAttached(Ok(())));
    assert_eq!(stage, LinkStage::Forwarding);
    assert!(matches!(action, LinkAction::AwaitEvent));
    let (stage, action) = link_step(stage, LinkEvent::Received(Some("{\"event\":\"x\"}".into())));
    match action {
        LinkAction::Send(m) => assert_eq!(m, "{\"event\":\"x\"}"),
        _ => panic!("expected a send"),
    }
    let (stage, action) = link_step(stage, LinkEvent::Sent);
    assert_eq!(stage, LinkStage::Forwarding);
    assert!(matches!(action, LinkAction::AwaitEvent));
    let (stage, action) = link_step(stage, LinkEvent::Received(None));
    assert_eq!(stage, LinkStage::Stopped);
    assert!(matches!(action, LinkAction::Stop));
    let (stage, _) = link_step(stage, LinkEvent::Connected(Ok(())));
    assert_eq!(stage, LinkStage::Stopped);
}

#[test]
fn link_failures_reconnect_and_interrupts_stop() {
    let (stage, action) = link_step(LinkStage::OpeningSession, LinkEvent::SessionBegun(Err("refused".into())));
    assert_eq!(stage, LinkStage::Connecting);
    match action {
        LinkAction::Reconnect(e) => assert_eq!(e, "refused"),
        _ => panic!("expected a reconnect"),
    }
    let (stage, _) = link_step(LinkStage::AttachingLink, LinkEvent::LinkAttached(Err("no".into())));
    assert_eq!(stage, LinkStage::Connecting);
    let (stage, action) = link_step(LinkStage::Forwarding, LinkEvent::Interrupted);
    assert_eq!(stage, LinkStage::Stopped);
    assert!(matches!(action, LinkAction::Stop));
}
