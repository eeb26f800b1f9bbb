//! Workflow engine: chains device commands into card-level operations.
//!
//! Every operation shares the same prefix — mifare-request, anticollision
//! (which must return more than 13 bytes, or there is no card), select-card
//! with the UID from the anticollision response, authenticate — and ends in
//! an operation-specific tail. A failing step short-circuits the rest.
//!
//! The engine is pure: a workflow is a function from the sequence of
//! transport events (one reply or fault per round trip, in order) to a
//! [`Trace`]: the command payloads sent, in order, and the final [`Outcome`].
//! A driver performs the round trips: it sends `trace.sent[k]` (framed by the
//! codec), reads the reply, and re-runs the workflow on the grown event list
//! until no further payload is produced. Events past the last sent payload
//! are never consulted, and a missing event is treated as a fault, so the
//! trace over a prefix of the session always names the next payload to send.

use vstd::prelude::*;
use crate::commands::CardId;
use crate::commands::anticollision_spec;
use crate::commands::app_key_spec;
use crate::commands::authenticate_spec;
use crate::commands::balance_of;
use crate::commands::beep_spec;
use crate::commands::card_id_of;
use crate::commands::default_key_spec;
use crate::commands::increase_balance_spec;
use crate::commands::init_balance_spec;
use crate::commands::init_card_spec;
use crate::commands::decrease_balance_spec;
use crate::commands::mifare_request_spec;
use crate::commands::read_balance_spec;
use crate::commands::select_card_spec;
use crate::commands::anticollision_payload;
use crate::commands::authenticate_payload;
use crate::commands::app_key;
use crate::commands::balance_from;
use crate::commands::beep_payload;
use crate::commands::card_id_from;
use crate::commands::default_key;
use crate::commands::increase_balance_payload;
use crate::commands::init_balance_payload;
use crate::commands::init_card_payload;
use crate::commands::decrease_balance_payload;
use crate::commands::mifare_request_payload;
use crate::commands::read_balance_payload;
use crate::commands::select_card_payload;
use crate::text::card_id_hex;
use crate::text::card_id_hex_spec;
use crate::text::decimal;
use crate::text::decimal_spec;

verus! {

/// What one transport round trip produced: the reply bytes, or a write,
/// read or timeout failure.
pub enum Event {
    Reply { bytes: Vec<u8> },
    Fault,
}

/// A card operation the engine can run.
#[derive(Clone, Copy, PartialEq, Eq, Structural, Debug)]
pub enum Operation {
    ReadId,
    ReadBalance,
    SetBalance { value: u32 },
    Increase { value: u32 },
    Decrease { value: u32 },
    InitCard,
}

/// The terminal state of a workflow.
#[derive(Clone, Copy, PartialEq, Eq, Structural, Debug)]
pub enum Outcome {
    /// A card was identified; carries its UID.
    Id { id: CardId },
    /// A balance was read back; carries the little-endian value.
    Balance { value: u32 },
    /// Card initialization completed.
    Configured,
    /// The anticollision response was too short: no card in range.
    CardNotFound,
    /// Transport failure on the mifare-request round trip.
    MifareTransport,
    /// Transport failure on the anticollision round trip.
    AnticollisionTransport,
    /// Transport failure on a later round trip (select, read or write).
    StepTransport,
    /// The authenticate round trip did not complete cleanly.
    AuthenticationFailed,
    /// A balance write went through but the confirmation read failed:
    /// the card state changed even though no value could be read back.
    PartialWrite,
    /// The init-card round trip failed: the card was already configured
    /// or a configuration error occurred.
    ConfigFailed,
}

/// What a finished workflow did: every command payload it sent, in order,
/// and how it ended.
pub struct Trace {
    pub sent: Vec<Vec<u8>>,
    pub outcome: Outcome,
}

/// The payload sequences of a sent list, for contracts.
pub open spec fn sent_view(s: Seq<Vec<u8>>) -> Seq<Seq<u8>> {
    s.map_values(|v: Vec<u8>| v@)
}

/// Whether round trip `i` produced a reply.
pub open spec fn ev_reply(events: Seq<Event>, i: int) -> bool {
    0 <= i < events.len() && events[i] is Reply
}

/// The reply bytes of round trip `i`.
pub open spec fn ev_bytes(events: Seq<Event>, i: int) -> Seq<u8>
    recommends
        ev_reply(events, i),
{
    events[i]->bytes@
}

/// The shared workflow prefix starting at round trip `i`: mifare-request,
/// anticollision, select-card, authenticate with `key`. Yields the payloads
/// sent and either the failure outcome or, on `None`, reaches the
/// authenticated state.
pub open spec fn prefix_spec(events: Seq<Event>, i: int, key: Seq<u8>) -> (Seq<Seq<u8>>, Option<
    Outcome,
>) {
    if !ev_reply(events, i) {
        (seq![mifare_request_spec()], Some(Outcome::MifareTransport))
    } else if !ev_reply(events, i + 1) {
        (seq![mifare_request_spec(), anticollision_spec()], Some(Outcome::AnticollisionTransport))
    } else if ev_bytes(events, i + 1).len() <= 13 {
        (seq![mifare_request_spec(), anticollision_spec()], Some(Outcome::CardNotFound))
    } else {
        let id = card_id_of(ev_bytes(events, i + 1));
        if !ev_reply(events, i + 2) {
            (
                seq![mifare_request_spec(), anticollision_spec(), select_card_spec(id)],
                Some(Outcome::StepTransport),
            )
        } else if !ev_reply(events, i + 3) {
            (
                seq![
                    mifare_request_spec(),
                    anticollision_spec(),
                    select_card_spec(id),
                    authenticate_spec(key),
                ],
                Some(Outcome::AuthenticationFailed),
            )
        } else {
            (
                seq![
                    mifare_request_spec(),
                    anticollision_spec(),
                    select_card_spec(id),
                    authenticate_spec(key),
                ],
                None,
            )
        }
    }
}

/// A full balance read starting at round trip `i`: the shared prefix with
/// `key`, then the read-balance command. Succeeds with the value at offsets
/// 9..=12 of the read reply; a short reply counts as a transport failure.
pub open spec fn read_phase_spec(events: Seq<Event>, i: int, key: Seq<u8>) -> (Seq<Seq<u8>>,
Outcome) {
    let pre = prefix_spec(events, i, key);
    match pre.1 {
        Some(o) => (pre.0, o),
        None => {
            let s = pre.0.push(read_balance_spec());
            if !ev_reply(events, i + 4) {
                (s, Outcome::StepTransport)
            } else if ev_bytes(events, i + 4).len() < 13 {
                (s, Outcome::StepTransport)
            } else {
                (s, Outcome::Balance { value: balance_of(ev_bytes(events, i + 4)) })
            }
        },
    }
}

/// The read-id workflow: mifare-request, anticollision, and on a long
/// enough response the UID with a confirming beep. No select or
/// authenticate step is needed to identify a card.
pub open spec fn read_id_spec(events: Seq<Event>) -> (Seq<Seq<u8>>, Outcome) {
    if !ev_reply(events, 0) {
        (seq![mifare_request_spec()], Outcome::MifareTransport)
    } else if !ev_reply(events, 1) {
        (seq![mifare_request_spec(), anticollision_spec()], Outcome::AnticollisionTransport)
    } else if ev_bytes(events, 1).len() <= 13 {
        (seq![mifare_request_spec(), anticollision_spec()], Outcome::CardNotFound)
    } else {
        (
            seq![mifare_request_spec(), anticollision_spec(), beep_spec(2)],
            Outcome::Id { id: card_id_of(ev_bytes(events, 1)) },
        )
    }
}

/// The read-balance workflow: a full balance read with the application key,
/// with a confirming beep on success.
pub open spec fn read_balance_run_spec(events: Seq<Event>) -> (Seq<Seq<u8>>, Outcome) {
    let phase = read_phase_spec(events, 0, app_key_spec());
    if phase.1 is Balance {
        (phase.0.push(beep_spec(2)), phase.1)
    } else {
        (phase.0, phase.1)
    }
}

/// A balance-mutating workflow (set, increase or decrease): the shared
/// prefix with the application key, the write payload `wp`, then a fresh
/// full balance read to confirm. A failing confirmation after a successful
/// write is the distinct partial-write outcome; success beeps once and
/// returns the value read back.
pub open spec fn write_run_spec(events: Seq<Event>, wp: Seq<u8>) -> (Seq<Seq<u8>>, Outcome) {
    let pre = prefix_spec(events, 0, app_key_spec());
    match pre.1 {
        Some(o) => (pre.0, o),
        None => {
            let s = pre.0.push(wp);
            if !ev_reply(events, 4) {
                (s, Outcome::StepTransport)
            } else {
                let confirm = read_phase_spec(events, 5, app_key_spec());
                if confirm.1 is Balance {
                    ((s + confirm.0).push(beep_spec(2)), confirm.1)
                } else {
                    (s + confirm.0, Outcome::PartialWrite)
                }
            }
        },
    }
}

/// The init-card workflow: the shared prefix with the factory default key,
/// then the init-card write; success beeps once.
pub open spec fn init_card_run_spec(events: Seq<Event>) -> (Seq<Seq<u8>>, Outcome) {
    let pre = prefix_spec(events, 0, default_key_spec());
    match pre.1 {
        Some(o) => (pre.0, o),
        None => {
            let s = pre.0.push(init_card_spec());
            if !ev_reply(events, 4) {
                (s, Outcome::ConfigFailed)
            } else {
                (s.push(beep_spec(2)), Outcome::Configured)
            }
        },
    }
}

/// What any operation sends and how it ends, for a given event sequence.
pub open spec fn run_spec(op: Operation, events: Seq<Event>) -> (Seq<Seq<u8>>, Outcome) {
    match op {
        Operation::ReadId => read_id_spec(events),
        Operation::ReadBalance => read_balance_run_spec(events),
        Operation::SetBalance { value } => write_run_spec(events, init_balance_spec(value)),
        Operation::Increase { value } => write_run_spec(events, increase_balance_spec(value)),
        Operation::Decrease { value } => write_run_spec(events, decrease_balance_spec(value)),
        Operation::InitCard => init_card_run_spec(events),
    }
}

/// Whether an outcome is a success for its operation.
pub open spec fn outcome_ok(o: Outcome) -> bool {
    o is Id || o is Balance || o is Configured
}

/// The user-visible message of each outcome: the hex UID, the decimal
/// balance, or the status text of the workflow's end.
pub open spec fn message_spec(o: Outcome) -> Seq<char> {
    match o {
        Outcome::Id { id } => card_id_hex_spec(id),
        Outcome::Balance { value } => decimal_spec(value as int),
        Outcome::Configured => "Card configured successfully"@,
        Outcome::CardNotFound => "Card not found"@,
        Outcome::MifareTransport => "Baghali"@,
        Outcome::AnticollisionTransport => "nothing"@,
        Outcome::StepTransport => "Connection error"@,
        Outcome::AuthenticationFailed => "Authentication failed"@,
        Outcome::PartialWrite => "Balance has wrote to card but can't retrive balance"@,
        Outcome::ConfigFailed => "card was configured or there is a problem to config that"@,
    }
}

impl Outcome {
    /// The boolean status reported to the caller: true exactly for the
    /// successful terminal states.
    pub fn status(&self) -> (r: bool)
        ensures
            r == outcome_ok(*self),
    {
        match self {
            Outcome::Id { .. } => true,
            Outcome::Balance { .. } => true,
            Outcome::Configured => true,
            _ => false,
        }
    }

    /// The string payload reported to the caller.
    pub fn message(&self) -> (r: String)
        ensures
            r@ == message_spec(*self),
    {
        match self {
            Outcome::Id { id } => card_id_hex(*id),
            Outcome::Balance { value } => decimal(*value),
            Outcome::Configured => String::from_str("Card configured successfully"),
            Outcome::CardNotFound => String::from_str("Card not found"),
            Outcome::MifareTransport => String::from_str("Baghali"),
            Outcome::AnticollisionTransport => String::from_str("nothing"),
            Outcome::StepTransport => String::from_str("Connection error"),
            Outcome::AuthenticationFailed => String::from_str("Authentication failed"),
            Outcome::PartialWrite => String::from_str(
                "Balance has wrote to card but can't retrive balance",
            ),
            Outcome::ConfigFailed => String::from_str(
                "card was configured or there is a problem to config that",
            ),
        }
    }
}

/// The reply of round trip `i`, if there was one; anything past the end of
/// the recorded events counts as a fault.
fn event_reply(events: &Vec<Event>, i: usize) -> (r: Option<&Vec<u8>>)
    ensures
        match r {
            Some(b) => ev_reply(events@, i as int) && b@ == ev_bytes(events@, i as int),
            None => !ev_reply(events@, i as int),
        },
{
    if i < events.len() {
        match &events[i] {
            Event::Reply { bytes } => Some(bytes),
            Event::Fault => None,
        }
    } else {
        None
    }
}

/// Runs the shared workflow prefix starting at round trip `base`, appending
/// each sent payload; yields the UID of the selected card, or the failure
/// that ended the workflow.
fn run_prefix(events: &Vec<Event>, base: usize, key: &Vec<u8>, sent: &mut Vec<Vec<u8>>) -> (r:
    Result<CardId, Outcome>)
    requires
        base + 4 <= usize::MAX,
    ensures
        sent_view(final(sent)@) == sent_view(old(sent)@) + prefix_spec(
            events@,
            base as int,
            key@,
        ).0,
        match r {
            Ok(id) => prefix_spec(events@, base as int, key@).1 is None && id == card_id_of(
                ev_bytes(events@, base as int + 1),
            ),
            Err(o) => prefix_spec(events@, base as int, key@).1 == Some(o),
        },
{
    sent.push(mifare_request_payload());
    proof {
        assert(sent_view(sent@) =~= sent_view(old(sent)@) + seq![mifare_request_spec()]);
    }
    if event_reply(events, base).is_none() {
        return Err(Outcome::MifareTransport);
    }
    sent.push(anticollision_payload());
    proof {
        assert(sent_view(sent@) =~= sent_view(old(sent)@) + seq![
            mifare_request_spec(),
            anticollision_spec(),
        ]);
    }
    match event_reply(events, base + 1) {
        None => Err(Outcome::AnticollisionTransport),
        Some(cards) => {
            if cards.len() <= 13 {
                return Err(Outcome::CardNotFound);
            }
            let id = card_id_from(cards);
            sent.push(select_card_payload(id));
            proof {
                assert(sent_view(sent@) =~= sent_view(old(sent)@) + seq![
                    mifare_request_spec(),
                    anticollision_spec(),
                    select_card_spec(id),
                ]);
            }
            if event_reply(events, base + 2).is_none() {
                return Err(Outcome::StepTransport);
            }
            sent.push(authenticate_payload(key));
            proof {
                assert(sent_view(sent@) =~= sent_view(old(sent)@) + seq![
                    mifare_request_spec(),
                    anticollision_spec(),
                    select_card_spec(id),
                    authenticate_spec(key@),
                ]);
            }
            if event_reply(events, base + 3).is_none() {
                return Err(Outcome::AuthenticationFailed);
            }
            Ok(id)
        },
    }
}

/// Runs the read-id workflow over the recorded transport events.
pub fn read_id(events: &Vec<Event>) -> (t: Trace)
    ensures
        sent_view(t.sent@) == read_id_spec(events@).0,
        t.outcome == read_id_spec(events@).1,
{
    let mut sent: Vec<Vec<u8>> = Vec::new();
    sent.push(mifare_request_payload());
    proof {
        assert(sent_view(sent@) =~= seq![mifare_request_spec()]);
    }
    if event_reply(events, 0).is_none() {
        return Trace { sent, outcome: Outcome::MifareTransport };
    }
    sent.push(anticollision_payload());
    proof {
        assert(sent_view(sent@) =~= seq![mifare_request_spec(), anticollision_spec()]);
    }
    match event_reply(events, 1) {
        None => Trace { sent, outcome: Outcome::AnticollisionTransport },
        Some(cards) => {
            if cards.len() <= 13 {
                Trace { sent, outcome: Outcome::CardNotFound }
            } else {
                let id = card_id_from(cards);
                sent.push(beep_payload(2));
                proof {
                    assert(sent_view(sent@) =~= seq![
                        mifare_request_spec(),
                        anticollision_spec(),
                        beep_spec(2),
                    ]);
                }
                Trace { sent, outcome: Outcome::Id { id } }
            }
        },
    }
}

/// Runs the read-balance workflow: prefix with the application key, then
/// the read-balance command; beeps once on success.
pub fn read_balance(events: &Vec<Event>) -> (t: Trace)
    ensures
        sent_view(t.sent@) == read_balance_run_spec(events@).0,
        t.outcome == read_balance_run_spec(events@).1,
{
    let mut sent: Vec<Vec<u8>> = Vec::new();
    proof {
        assert(sent_view(sent@) =~= Seq::<Seq<u8>>::empty());
        assert(Seq::<Seq<u8>>::empty() + prefix_spec(events@, 0, app_key_spec()).0 =~= prefix_spec(
            events@,
            0,
            app_key_spec(),
        ).0);
    }
    let key = app_key();
    match run_prefix(events, 0, &key, &mut sent) {
        Err(o) => Trace { sent, outcome: o },
        Ok(_) => {
            sent.push(read_balance_payload());
            proof {
                assert(sent_view(sent@) =~= prefix_spec(events@, 0, app_key_spec()).0.push(
                    read_balance_spec(),
                ));
            }
            match event_reply(events, 4) {
                None => Trace { sent, outcome: Outcome::StepTransport },
                Some(rb) => {
                    if rb.len() < 13 {
                        Trace { sent, outcome: Outcome::StepTransport }
                    } else {
                        let value = balance_from(rb);
                        sent.push(beep_payload(2));
                        proof {
                            assert(sent_view(sent@) =~= read_phase_spec(
                                events@,
                                0,
                                app_key_spec(),
                            ).0.push(beep_spec(2)));
                        }
                        Trace { sent, outcome: Outcome::Balance { value } }
                    }
                },
            }
        },
    }
}

/// Runs a balance-mutating workflow: prefix, the write payload `wp`, then a
/// fresh full balance read to confirm; beeps once when the confirmation
/// succeeds, and reports a partial write when it does not.
fn run_write(events: &Vec<Event>, wp: Vec<u8>) -> (t: Trace)
    ensures
        sent_view(t.sent@) == write_run_spec(events@, wp@).0,
        t.outcome == write_run_spec(events@, wp@).1,
{
    let ghost wps = wp@;
    let mut sent: Vec<Vec<u8>> = Vec::new();
    proof {
        assert(sent_view(sent@) =~= Seq::<Seq<u8>>::empty());
        assert(Seq::<Seq<u8>>::empty() + prefix_spec(events@, 0, app_key_spec()).0 =~= prefix_spec(
            events@,
            0,
            app_key_spec(),
        ).0);
    }
    let key = app_key();
    match run_prefix(events, 0, &key, &mut sent) {
        Err(o) => Trace { sent, outcome: o },
        Ok(_) => {
            let ghost s = prefix_spec(events@, 0, app_key_spec()).0.push(wps);
            sent.push(wp);
            proof {
                assert(sent_view(sent@) =~= s);
            }
            if event_reply(events, 4).is_none() {
                return Trace { sent, outcome: Outcome::StepTransport };
            }
            let confirmed = run_prefix(events, 5, &key, &mut sent);
            proof {
                assert(sent_view(sent@) =~= s + prefix_spec(events@, 5, app_key_spec()).0);
            }
            match confirmed {
                Err(_) => {
                    proof {
                        assert(s + read_phase_spec(events@, 5, app_key_spec()).0 =~= s
                            + prefix_spec(events@, 5, app_key_spec()).0);
                    }
                    Trace { sent, outcome: Outcome::PartialWrite }
                },
                Ok(_) => {
                    sent.push(read_balance_payload());
                    proof {
                        let p5 = prefix_spec(events@, 5, app_key_spec()).0;
                        assert(sent_view(sent@) =~= (s + p5).push(read_balance_spec()));
                        assert((s + p5).push(read_balance_spec()) =~= s + p5.push(
                            read_balance_spec(),
                        ));
                        assert(s + read_phase_spec(events@, 5, app_key_spec()).0 =~= s + p5.push(
                            read_balance_spec(),
                        ));
                    }
                    match event_reply(events, 9) {
                        None => Trace { sent, outcome: Outcome::PartialWrite },
                        Some(rb) => {
                            if rb.len() < 13 {
                                Trace { sent, outcome: Outcome::PartialWrite }
                            } else {
                                let value = balance_from(rb);
                                sent.push(beep_payload(2));
                                proof {
                                    assert(sent_view(sent@) =~= (s + read_phase_spec(
                                        events@,
                                        5,
                                        app_key_spec(),
                                    ).0).push(beep_spec(2)));
                                }
                                Trace { sent, outcome: Outcome::Balance { value } }
                            }
                        },
                    }
                },
            }
        },
    }
}

/// Runs the set-balance workflow: writes `value` to the balance block and
/// confirms it with a fresh balance read.
pub fn init_balance(value: u32, events: &Vec<Event>) -> (t: Trace)
    ensures
        sent_view(t.sent@) == write_run_spec(events@, init_balance_spec(value)).0,
        t.outcome == write_run_spec(events@, init_balance_spec(value)).1,
{
    run_write(events, init_balance_payload(value))
}

/// Runs the increase-balance workflow: adds `value` to the stored balance
/// and confirms with a fresh balance read.
pub fn increase(value: u32, events: &Vec<Event>) -> (t: Trace)
    ensures
        sent_view(t.sent@) == write_run_spec(events@, increase_balance_spec(value)).0,
        t.outcome == write_run_spec(events@, increase_balance_spec(value)).1,
{
    run_write(events, increase_balance_payload(value))
}

/// Runs the decrease-balance workflow: subtracts `value` from the stored
/// balance and confirms with a fresh balance read.
pub fn decrease(value: u32, events: &Vec<Event>) -> (t: Trace)
    ensures
        sent_view(t.sent@) == write_run_spec(events@, decrease_balance_spec(value)).0,
        t.outcome == write_run_spec(events@, decrease_balance_spec(value)).1,
{
    run_write(events, decrease_balance_payload(value))
}

/// Runs the init-card workflow: authenticates with the factory default key
/// and writes the application key, access bytes and default key.
pub fn init_card(events: &Vec<Event>) -> (t: Trace)
    ensures
        sent_view(t.sent@) == init_card_run_spec(events@).0,
        t.outcome == init_card_run_spec(events@).1,
{
    let mut sent: Vec<Vec<u8>> = Vec::new();
    proof {
        assert(sent_view(sent@) =~= Seq::<Seq<u8>>::empty());
        assert(Seq::<Seq<u8>>::empty() + prefix_spec(events@, 0, default_key_spec()).0
            =~= prefix_spec(events@, 0, default_key_spec()).0);
    }
    let key = default_key();
    match run_prefix(events, 0, &key, &mut sent) {
        Err(o) => Trace { sent, outcome: o },
        Ok(_) => {
            sent.push(init_card_payload());
            proof {
                assert(sent_view(sent@) =~= prefix_spec(events@, 0, default_key_spec()).0.push(
                    init_card_spec(),
                ));
            }
            if event_reply(events, 4).is_none() {
                return Trace { sent, outcome: Outcome::ConfigFailed };
            }
            sent.push(beep_payload(2));
            proof {
                assert(sent_view(sent@) =~= prefix_spec(events@, 0, default_key_spec()).0.push(
                    init_card_spec(),
                ).push(beep_spec(2)));
            }
            Trace { sent, outcome: Outcome::Configured }
        },
    }
}

/// Runs any operation over the recorded transport events.
pub fn run(op: &Operation, events: &Vec<Event>) -> (t: Trace)
    ensures
        sent_view(t.sent@) == run_spec(*op, events@).0,
        t.outcome == run_spec(*op, events@).1,
{
    match op {
        Operation::ReadId => read_id(events),
        Operation::ReadBalance => read_balance(events),
        Operation::SetBalance { value } => init_balance(*value, events),
        Operation::Increase { value } => increase(*value, events),
        Operation::Decrease { value } => decrease(*value, events),
        Operation::InitCard => init_card(events),
    }
}

} // verus!
