use er302::workflow::{
    decrease, increase, init_balance, init_card, read_balance, read_id, run, Event, Operation,
    Outcome, Trace,
};

fn reply(bytes: Vec<u8>) -> Event {
    Event::Reply { bytes }
}

fn ok_reply() -> Event {
    reply(vec![0u8; 16])
}

fn anticollision_reply() -> Event {
    // UID bytes AA BB CC DD at offsets 9..=12.
    reply(vec![
        0x00, 0x00, 0x0e, 0x02, 0x11, 0x22, 0x33, 0x44, 0x55, 0xaa, 0xbb, 0xcc, 0xdd, 0x66, 0x77,
        0x88, 0x00,
    ])
}

fn balance_reply(v: u32) -> Event {
    let mut b = vec![0u8; 9];
    b.extend_from_slice(&v.to_le_bytes());
    b.push(0x00);
    reply(b)
}

fn beeps(t: &Trace) -> usize {
    t.sent
        .iter()
        .filter(|p| p.as_slice() == [0x00, 0x00, 0x06, 0x01, 0x02])
        .count()
}

#[test]
fn read_id_returns_uppercase_hex_uid() {
    let events = vec![ok_reply(), anticollision_reply()];
    let t = read_id(&events);
    assert!(t.outcome.status());
    assert_eq!(t.outcome.message(), "AABBCCDD");
    assert_eq!(beeps(&t), 1);
    assert_eq!(t.sent.len(), 3);
    assert_eq!(t.sent[0], vec![0x00, 0x00, 0x01, 0x02, 0x52]);
    assert_eq!(t.sent[1], vec![0x00, 0x00, 0x02, 0x02]);
}

#[test]
fn read_id_hex_uses_leading_zeros() {
    let mut bytes = vec![0u8; 9];
    bytes.extend_from_slice(&[0x0f, 0x00, 0x9c, 0x5a, 0x00]);
    let events = vec![ok_reply(), reply(bytes)];
    let t = read_id(&events);
    assert_eq!(t.outcome.message(), "0F009C5A");
}

#[test]
fn short_anticollision_response_is_card_not_found() {
    let events = vec![ok_reply(), reply(vec![0u8; 10])];
    let t = read_id(&events);
    assert!(!t.outcome.status());
    assert_eq!(t.outcome, Outcome::CardNotFound);
    assert_eq!(t.outcome.message(), "Card not found");
    assert_eq!(beeps(&t), 0);
}

#[test]
fn card_not_found_short_circuits_every_operation() {
    let events = vec![ok_reply(), reply(vec![0u8; 13])];
    let ops = [
        Operation::ReadId,
        Operation::ReadBalance,
        Operation::SetBalance { value: 7 },
        Operation::Increase { value: 7 },
        Operation::Decrease { value: 7 },
        Operation::InitCard,
    ];
    for op in ops {
        let t = run(&op, &events);
        assert_eq!(t.outcome, Outcome::CardNotFound);
        // Only mifare-request and anticollision were sent: no select, no
        // authenticate, no beep.
        assert_eq!(t.sent.len(), 2);
        assert_eq!(beeps(&t), 0);
    }
}

#[test]
fn read_balance_returns_decimal_value() {
    let events = vec![ok_reply(), anticollision_reply(), ok_reply(), ok_reply(), balance_reply(100)];
    let t = read_balance(&events);
    assert_eq!(t.outcome, Outcome::Balance { value: 100 });
    assert!(t.outcome.status());
    assert_eq!(t.outcome.message(), "100");
    assert_eq!(beeps(&t), 1);
    assert_eq!(t.sent.len(), 6);
    // Select-card carries the UID bytes from the anticollision response.
    assert_eq!(t.sent[2], vec![0x00, 0x00, 0x03, 0x02, 0xaa, 0xbb, 0xcc, 0xdd]);
    // Authenticate targets block 53 with the application key.
    assert_eq!(
        t.sent[3],
        vec![0x00, 0x00, 0x07, 0x02, 0x60, 0x35, 0x17, 0x05, 0x97, 0x27, 0x08, 0x59]
    );
    assert_eq!(t.sent[4], vec![0x00, 0x00, 0x0b, 0x02, 0x35]);
}

#[test]
fn read_balance_decodes_little_endian() {
    let events = vec![
        ok_reply(),
        anticollision_reply(),
        ok_reply(),
        ok_reply(),
        balance_reply(0x04030201),
    ];
    let t = read_balance(&events);
    assert_eq!(t.outcome, Outcome::Balance { value: 0x04030201 });
    assert_eq!(t.outcome.message(), "67305985");
}

#[test]
fn read_balance_zero_renders_as_single_digit() {
    let events = vec![ok_reply(), anticollision_reply(), ok_reply(), ok_reply(), balance_reply(0)];
    let t = read_balance(&events);
    assert_eq!(t.outcome.message(), "0");
}

#[test]
fn auth_fault_is_authentication_failed() {
    let events = vec![ok_reply(), anticollision_reply(), ok_reply(), Event::Fault];
    let t = read_balance(&events);
    assert_eq!(t.outcome, Outcome::AuthenticationFailed);
    assert_eq!(t.outcome.message(), "Authentication failed");
    assert_eq!(beeps(&t), 0);
}

#[test]
fn short_read_balance_reply_is_a_transport_failure() {
    // A reply too short to carry the four balance bytes at offsets 9..=12
    // cannot be acted upon.
    let events =
        vec![ok_reply(), anticollision_reply(), ok_reply(), ok_reply(), reply(vec![0u8; 10])];
    let t = read_balance(&events);
    assert_eq!(t.outcome, Outcome::StepTransport);
    assert_eq!(beeps(&t), 0);
}

#[test]
fn transport_faults_name_the_failing_step() {
    let t = read_id(&Vec::new());
    assert_eq!(t.outcome, Outcome::MifareTransport);
    assert_eq!(t.outcome.message(), "Baghali");
    assert!(!t.outcome.status());

    let t = read_id(&vec![ok_reply()]);
    assert_eq!(t.outcome, Outcome::AnticollisionTransport);
    assert_eq!(t.outcome.message(), "nothing");

    let t = read_balance(&vec![ok_reply(), anticollision_reply(), Event::Fault]);
    assert_eq!(t.outcome, Outcome::StepTransport);
    assert_eq!(t.outcome.message(), "Connection error");
}

#[test]
fn set_balance_confirm_timeout_is_partial_write() {
    // Write succeeds, then the confirmation read's first round trip fails:
    // the distinct partial-write outcome, not a generic connection error.
    let events = vec![
        ok_reply(),
        anticollision_reply(),
        ok_reply(),
        ok_reply(),
        ok_reply(),
        Event::Fault,
    ];
    let t = init_balance(100, &events);
    assert_eq!(t.outcome, Outcome::PartialWrite);
    assert_eq!(
        t.outcome.message(),
        "Balance has wrote to card but can't retrive balance"
    );
    assert!(!t.outcome.status());
    assert_eq!(beeps(&t), 0);
}

#[test]
fn increase_and_decrease_confirm_failure_is_partial_write() {
    // The confirmation read fails at its final round trip.
    let events = vec![
        ok_reply(),
        anticollision_reply(),
        ok_reply(),
        ok_reply(),
        ok_reply(),
        ok_reply(),
        anticollision_reply(),
        ok_reply(),
        ok_reply(),
        Event::Fault,
    ];
    let t = increase(5, &events);
    assert_eq!(t.outcome, Outcome::PartialWrite);
    assert_eq!(beeps(&t), 0);
    let t = decrease(5, &events);
    assert_eq!(t.outcome, Outcome::PartialWrite);
    assert_eq!(beeps(&t), 0);
}

#[test]
fn set_balance_success_confirms_with_fresh_read() {
    let events = vec![
        ok_reply(),
        anticollision_reply(),
        ok_reply(),
        ok_reply(),
        ok_reply(),
        ok_reply(),
        anticollision_reply(),
        ok_reply(),
        ok_reply(),
        balance_reply(100),
    ];
    let t = init_balance(100, &events);
    assert_eq!(t.outcome, Outcome::Balance { value: 100 });
    assert_eq!(t.outcome.message(), "100");
    assert_eq!(beeps(&t), 1);
    assert_eq!(t.sent.len(), 11);
    // The write payload carries the value little-endian after the block.
    assert_eq!(t.sent[4], vec![0x00, 0x00, 0x0a, 0x02, 0x35, 100, 0, 0, 0]);
}

#[test]
fn increase_and_decrease_use_their_own_opcodes() {
    let events = vec![
        ok_reply(),
        anticollision_reply(),
        ok_reply(),
        ok_reply(),
        ok_reply(),
        ok_reply(),
        anticollision_reply(),
        ok_reply(),
        ok_reply(),
        balance_reply(260),
    ];
    let t = increase(0x01020304, &events);
    assert_eq!(t.outcome, Outcome::Balance { value: 260 });
    assert_eq!(t.outcome.message(), "260");
    assert_eq!(t.sent[4], vec![0x00, 0x00, 0x0d, 0x02, 0x35, 0x04, 0x03, 0x02, 0x01]);
    let t = decrease(7, &events);
    assert_eq!(t.sent[4], vec![0x00, 0x00, 0x0c, 0x02, 0x35, 7, 0, 0, 0]);
    assert_eq!(beeps(&t), 1);
}

#[test]
fn init_card_writes_keys_and_access_bytes() {
    let events = vec![ok_reply(), anticollision_reply(), ok_reply(), ok_reply(), ok_reply()];
    let t = init_card(&events);
    assert_eq!(t.outcome, Outcome::Configured);
    assert_eq!(t.outcome.message(), "Card configured successfully");
    assert!(t.outcome.status());
    assert_eq!(beeps(&t), 1);
    // Authenticates with the factory default key.
    assert_eq!(
        t.sent[3],
        vec![0x00, 0x00, 0x07, 0x02, 0x60, 0x35, 0xff, 0xff, 0xff, 0xff, 0xff, 0xff]
    );
    // Writes application key, access-condition bytes, default key.
    assert_eq!(
        t.sent[4],
        vec![
            0x00, 0x00, 0x09, 0x02, 0x37, 0x17, 0x05, 0x97, 0x27, 0x08, 0x59, 0xff, 0x07, 0x80,
            0x69, 0xff, 0xff, 0xff, 0xff, 0xff, 0xff
        ]
    );
}

#[test]
fn init_card_write_fault_is_config_failed() {
    let events = vec![ok_reply(), anticollision_reply(), ok_reply(), ok_reply(), Event::Fault];
    let t = init_card(&events);
    assert_eq!(t.outcome, Outcome::ConfigFailed);
    assert_eq!(
        t.outcome.message(),
        "card was configured or there is a problem to config that"
    );
    assert_eq!(beeps(&t), 0);
}

// A scripted device: answers anticollision with a card in range and the
// read-balance command with a stored value, and acknowledges the rest.
fn scripted_device(payload: &[u8], stored: u32) -> Event {
    if payload == [0x00, 0x00, 0x02, 0x02] {
        anticollision_reply()
    } else if payload == [0x00, 0x00, 0x0b, 0x02, 0x35] {
        balance_reply(stored)
    } else {
        ok_reply()
    }
}

#[test]
fn interactive_driver_loop_reaches_the_outcome() {
    // A driver only ever needs the trace over the events so far: the next
    // payload to send is the first one past the recorded replies.
    let op = Operation::SetBalance { value: 42 };
    let mut events: Vec<Event> = Vec::new();
    let mut rounds = 0;
    let outcome = loop {
        let t = run(&op, &events);
        if t.sent.len() <= events.len() {
            break t.outcome;
        }
        let ev = scripted_device(&t.sent[events.len()], 42);
        events.push(ev);
        rounds += 1;
        assert!(rounds <= 16);
    };
    assert_eq!(outcome, Outcome::Balance { value: 42 });
    assert_eq!(outcome.message(), "42");
}
