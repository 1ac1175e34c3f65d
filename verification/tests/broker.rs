use simmer::{
    create, get_channel, get_channel_end, get_channel_start, msg_type, registry_step,
    wait_till_online_step, ActorChannel, Broadcast, Channel, ChannelRegistry, Direction, EndType,
    Lifecycle, OpaqueChannel, Recv, RecvSignal, RegistryAction, RegistryEvent, Side, SimmerError,
    StartType, WaitAction, ONLINE,
};

#[test]
fn identity_stability() {
    let mut reg = ChannelRegistry::new();
    let s1 = get_channel_start::<String>(&mut reg, "world", "talk", Direction::In).unwrap();
    let s2 = get_channel_start::<String>(&mut reg, "world", "talk", Direction::Out).unwrap();
    let e = get_channel_end::<String>(&mut reg, "world", "talk", Direction::In).unwrap();
    assert_eq!(s1.chan, s2.chan);
    assert_eq!(s1.chan, e.chan);
    let other_name = get_channel_start::<String>(&mut reg, "world", "other", Direction::In).unwrap();
    assert_ne!(other_name.chan, s1.chan);
    let other_actor = get_channel_start::<String>(&mut reg, "hello", "talk", Direction::In).unwrap();
    assert_ne!(other_actor.chan, s1.chan);
    assert_ne!(other_actor.chan, other_name.chan);
    let other_type = get_channel_start::<u64>(&mut reg, "world", "talk", Direction::In).unwrap();
    assert_ne!(other_type.chan, s1.chan);
    let again = get_channel_start::<String>(&mut reg, "world", "talk", Direction::In).unwrap();
    assert_eq!(again.chan, s1.chan);
}

#[test]
fn message_type_tags() {
    assert_eq!(msg_type::<String>(), msg_type::<String>());
    assert_ne!(msg_type::<String>(), msg_type::<u64>());
    assert_ne!(msg_type::<()>(), msg_type::<u64>());
}

#[test]
fn downcast_error_on_type_mismatch() {
    let mut reg = ChannelRegistry::new();
    let rq = ActorChannel {
        actor: "world",
        channel_name: "talk",
        direction: Direction::In,
        side: Side::Start,
        msg_type: msg_type::<String>(),
    };
    let oc = reg.get_or_create(&rq);
    let r = Channel::<u64>::try_from(oc, msg_type::<u64>());
    assert!(matches!(r, Err(SimmerError::DowncastError)));
    let oc2 = reg.get_or_create(&rq);
    let r2 = Channel::<String>::try_from(oc2, msg_type::<String>());
    assert!(matches!(r2, Ok(Channel::Start(_))));
}

#[test]
fn wrong_side_is_reported() {
    let mut reg = ChannelRegistry::new();
    let c = get_channel::<String>(&mut reg, "world", "talk", Direction::In, Side::End).unwrap();
    match StartType::<String>::try_from(c) {
        Err(SimmerError::WrongSide(want, got)) => {
            assert_eq!(want, "Start");
            assert_eq!(got, "End");
        }
        _ => panic!("expected the wrong-side error"),
    }
    let c2 = get_channel::<String>(&mut reg, "world", "talk", Direction::In, Side::Start).unwrap();
    match EndType::<String>::try_from(c2) {
        Err(SimmerError::WrongSide(want, got)) => {
            assert_eq!(want, "End");
            assert_eq!(got, "Start");
        }
        _ => panic!("expected the wrong-side error"),
    }
}

#[test]
fn single_shutdown() {
    let mut l = Lifecycle::new();
    assert!(matches!(l.shutdown_registry(), Ok(())));
    assert!(matches!(l.shutdown_registry(), Err(SimmerError::Shutdown)));
    assert!(matches!(l.shutdown_registry(), Err(SimmerError::Shutdown)));
}

#[test]
fn idempotent_startup() {
    let mut l = Lifecycle::new();
    assert!(l.begin_start());
    assert!(!l.begin_start());
    assert!(!l.begin_start());
    assert!(l.take_end());
    assert!(!l.take_end());
}

#[test]
fn registry_step_replies_and_stops() {
    let mut reg = ChannelRegistry::new();
    let rq = ActorChannel {
        actor: "world",
        channel_name: "talk",
        direction: Direction::In,
        side: Side::End,
        msg_type: msg_type::<String>(),
    };
    match registry_step(&mut reg, RegistryEvent::Request(rq)) {
        RegistryAction::Reply(oc) => {
            let p = match oc {
                OpaqueChannel::Start(o) => panic!("an end-side request got a start reply: {}", o.chan),
                OpaqueChannel::End(o) => o,
            };
            assert_eq!(p.chan, 0);
        }
        RegistryAction::Stop => panic!("a request must be answered, not stop the loop"),
    }
    assert!(matches!(
        registry_step(&mut reg, RegistryEvent::Shutdown),
        RegistryAction::Stop
    ));
    assert!(matches!(
        registry_step(&mut reg, RegistryEvent::Closed),
        RegistryAction::Stop
    ));
}

#[test]
fn subscription_isolation() {
    let mut b: Broadcast<String> = create();
    let mut a = b.subscribe();
    assert!(b.send("first".to_string()).is_ok());
    match b.recv(&mut a) {
        Recv::Ready(i) => assert_eq!(b.read(i), &"first".to_string()),
        _ => panic!("the first subscriber must see the first message"),
    }
    let mut late = b.subscribe();
    assert!(matches!(b.recv(&mut late), Recv::Pending));
    assert!(b.send("second".to_string()).is_ok());
    match b.recv(&mut late) {
        Recv::Ready(i) => {
            assert_eq!(i, 1);
            assert_eq!(b.read(i), &"second".to_string());
        }
        _ => panic!("the late subscriber must see only the later message"),
    }
    match b.recv(&mut a) {
        Recv::Ready(i) => assert_eq!(i, 1),
        _ => panic!("the first subscriber must see the second message too"),
    }
}

#[test]
fn send_without_subscribers_hands_the_value_back() {
    let mut b: Broadcast<u64> = create();
    match b.send(7) {
        Err(v) => assert_eq!(v, 7),
        Ok(_) => panic!("with no subscriber the send must fail"),
    }
    let mut s = b.subscribe();
    assert_eq!(b.send(7), Ok(1));
    assert!(matches!(b.recv(&mut s), Recv::Ready(0)));
}

#[test]
fn hello_world() {
    let mut reg = ChannelRegistry::new();
    let mut channels: Vec<Broadcast<String>> = Vec::new();
    let we = get_channel_end::<String>(&mut reg, "world", "talk", Direction::In).unwrap();
    if we.chan == channels.len() {
        channels.push(create());
    }
    let mut sub = channels[we.chan].subscribe();
    let hs = get_channel_start::<String>(&mut reg, "world", "talk", Direction::In).unwrap();
    assert_eq!(hs.chan, we.chan);
    assert!(channels[hs.chan].send("hello".to_string()).is_ok());
    let hello = loop {
        match channels[we.chan].recv(&mut sub) {
            Recv::Ready(i) => break channels[we.chan].read(i).clone(),
            Recv::Lagged(_) => continue,
            Recv::Pending => panic!("the published greeting must be deliverable"),
        }
    };
    let hello_world = format!("{} world", hello);
    assert_eq!(hello_world, "hello world");
}

#[test]
fn publish_retries_after_handshake() {
    let mut reg = ChannelRegistry::new();
    let hs = get_channel_start::<String>(&mut reg, "world", "talk", Direction::In).unwrap();
    assert_eq!(hs.chan, 0);
    let mut talk: Broadcast<String> = create();
    let msg = match talk.send("hello".to_string()) {
        Err(m) => m,
        Ok(_) => panic!("with no subscriber the send must fail"),
    };
    let he = get_channel_end::<()>(&mut reg, "world", ONLINE, Direction::Out).unwrap();
    assert_eq!(he.chan, 1);
    let mut online: Broadcast<()> = create();
    let mut wait = online.subscribe();
    let we = get_channel_end::<String>(&mut reg, "world", "talk", Direction::In).unwrap();
    assert_eq!(we.chan, 0);
    let mut sub = talk.subscribe();
    let ws = get_channel_start::<()>(&mut reg, "world", ONLINE, Direction::Out).unwrap();
    assert_eq!(ws.chan, 1);
    assert!(online.send(()).is_ok());
    loop {
        let signal = match online.recv(&mut wait) {
            Recv::Ready(_) => RecvSignal::Value,
            Recv::Lagged(_) => RecvSignal::Lagged,
            Recv::Pending => panic!("the announcement must be deliverable"),
        };
        match wait_till_online_step(signal) {
            WaitAction::Done => break,
            WaitAction::Retry => continue,
            WaitAction::Fatal => panic!("the readiness channel must not close"),
        }
    }
    assert!(talk.send(msg).is_ok());
    match talk.recv(&mut sub) {
        Recv::Ready(i) => assert_eq!(talk.read(i), &"hello".to_string()),
        _ => panic!("after the handshake the greeting must arrive"),
    }
}

#[test]
fn lagged_subscriber_recovers() {
    let mut b: Broadcast<u64> = create();
    let mut s = b.subscribe();
    for v in 0..3u64 {
        assert!(b.send(v).is_ok());
    }
    match b.recv(&mut s) {
        Recv::Lagged(missed) => assert_eq!(missed, 2),
        _ => panic!("a subscriber behind by more than the capacity must see lag"),
    }
    match b.recv(&mut s) {
        Recv::Ready(i) => {
            assert_eq!(i, 2);
            assert_eq!(*b.read(i), 2);
        }
        _ => panic!("after the lag report receiving must continue"),
    }
    assert!(matches!(b.recv(&mut s), Recv::Pending));
}
