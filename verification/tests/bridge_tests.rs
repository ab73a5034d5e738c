use gossip_node::bridge::{Bridge, RecvOutcome, BRIDGE_CAPACITY};

#[test]
fn commands_are_received_in_order() {
    let mut b = Bridge::new(4);
    let mut rx = b.subscribe();
    b.send("one".to_owned());
    b.send("two".to_owned());
    match b.recv(&mut rx) {
        RecvOutcome::Msg(m) => assert_eq!(m, "one"),
        other => panic!("expected a message, got {:?}", other),
    }
    match b.recv(&mut rx) {
        RecvOutcome::Msg(m) => assert_eq!(m, "two"),
        other => panic!("expected a message, got {:?}", other),
    }
    assert!(matches!(b.recv(&mut rx), RecvOutcome::Empty));
}

#[test]
fn full_buffer_drops_the_oldest_command() {
    let mut b = Bridge::new(2);
    let mut rx = b.subscribe();
    b.send("a".to_owned());
    b.send("b".to_owned());
    b.send("c".to_owned());
    assert_eq!(b.queued(), 2);
    match b.recv(&mut rx) {
        RecvOutcome::Lagged(n) => assert_eq!(n, 1),
        other => panic!("expected a lag notice, got {:?}", other),
    }
    match b.recv(&mut rx) {
        RecvOutcome::Msg(m) => assert_eq!(m, "b"),
        other => panic!("expected a message, got {:?}", other),
    }
    match b.recv(&mut rx) {
        RecvOutcome::Msg(m) => assert_eq!(m, "c"),
        other => panic!("expected a message, got {:?}", other),
    }
    assert!(matches!(b.recv(&mut rx), RecvOutcome::Empty));
}

#[test]
fn overflow_at_default_capacity_keeps_the_newest() {
    // 101 rapid commands against a capacity of 100: the oldest is the one
    // dropped, and the latest command is still delivered.
    let mut b = Bridge::with_default_capacity();
    assert_eq!(b.capacity(), BRIDGE_CAPACITY);
    let mut rx = b.subscribe();
    for i in 1..=101u32 {
        b.send(format!("cmd{}", i));
    }
    assert_eq!(b.queued(), 100);
    match b.recv(&mut rx) {
        RecvOutcome::Lagged(n) => assert_eq!(n, 1),
        other => panic!("expected a lag notice, got {:?}", other),
    }
    let mut last = String::new();
    let mut count = 0;
    loop {
        match b.recv(&mut rx) {
            RecvOutcome::Msg(m) => {
                count += 1;
                last = m;
            }
            RecvOutcome::Empty => break,
            RecvOutcome::Lagged(_) => panic!("no further lag expected"),
        }
    }
    assert_eq!(count, 100);
    assert_eq!(last, "cmd101");
}

#[test]
fn late_subscriber_sees_only_later_commands() {
    let mut b = Bridge::new(8);
    b.send("early".to_owned());
    let mut rx = b.subscribe();
    assert!(matches!(b.recv(&mut rx), RecvOutcome::Empty));
    b.send("late".to_owned());
    match b.recv(&mut rx) {
        RecvOutcome::Msg(m) => assert_eq!(m, "late"),
        other => panic!("expected a message, got {:?}", other),
    }
}

#[test]
fn independent_consumers_keep_independent_cursors() {
    let mut b = Bridge::new(4);
    let mut rx1 = b.subscribe();
    let mut rx2 = b.subscribe();
    b.send("x".to_owned());
    match b.recv(&mut rx1) {
        RecvOutcome::Msg(m) => assert_eq!(m, "x"),
        other => panic!("expected a message, got {:?}", other),
    }
    // the second consumer still sees the command
    match b.recv(&mut rx2) {
        RecvOutcome::Msg(m) => assert_eq!(m, "x"),
        other => panic!("expected a message, got {:?}", other),
    }
    assert!(matches!(b.recv(&mut rx1), RecvOutcome::Empty));
}
