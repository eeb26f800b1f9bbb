//! Cross-cutting laws of the workflow engine: failure short-circuiting,
//! the distinct partial-write outcome, and the beep discipline.

use vstd::prelude::*;
use crate::commands::CardId;
use crate::commands::anticollision_spec;
use crate::commands::app_key_spec;
use crate::commands::authenticate_spec;
use crate::commands::beep_spec;
use crate::commands::decrease_balance_spec;
use crate::commands::default_key_spec;
use crate::commands::increase_balance_spec;
use crate::commands::init_balance_spec;
use crate::commands::init_card_spec;
use crate::commands::mifare_request_spec;
use crate::commands::read_balance_spec;
use crate::commands::select_card_spec;
use crate::workflow::Event;
use crate::workflow::Operation;
use crate::workflow::Outcome;
use crate::workflow::ev_bytes;
use crate::workflow::ev_reply;
use crate::workflow::outcome_ok;
use crate::workflow::prefix_spec;
use crate::workflow::read_id_spec;
use crate::workflow::read_phase_spec;
use crate::workflow::run_spec;
use crate::workflow::write_run_spec;

verus! {

/// How many beep commands a sent payload list holds.
pub open spec fn beep_count(s: Seq<Seq<u8>>) -> nat
    decreases s.len(),
{
    if s.len() == 0 {
        0
    } else {
        beep_count(s.drop_last()) + (if s.last() == beep_spec(2) {
            1nat
        } else {
            0nat
        })
    }
}

/// Law: if the anticollision round trip replies with 13 bytes or fewer,
/// every operation ends in `CardNotFound`, having sent only the
/// mifare-request and anticollision commands — in particular, no
/// select-card or authenticate command is ever attempted.
pub proof fn lemma_card_not_found_short_circuit(op: Operation, events: Seq<Event>)
    requires
        ev_reply(events, 0),
        ev_reply(events, 1),
        ev_bytes(events, 1).len() <= 13,
    ensures
        run_spec(op, events).1 == Outcome::CardNotFound,
        run_spec(op, events).0 == seq![mifare_request_spec(), anticollision_spec()],
{
}

/// Law: in a balance-mutating operation, when every step through the write
/// command succeeds but the confirming balance read fails for any reason,
/// the outcome is the distinct partial-write state, not a generic error.
pub proof fn lemma_partial_write(op: Operation, events: Seq<Event>)
    requires
        op is SetBalance || op is Increase || op is Decrease,
        prefix_spec(events, 0, app_key_spec()).1 is None,
        ev_reply(events, 4),
        !(read_phase_spec(events, 5, app_key_spec()).1 is Balance),
    ensures
        run_spec(op, events).1 == Outcome::PartialWrite,
{
}

/// Law: a workflow runs one round trip at a time: it sends at most one
/// payload past the recorded events. A driver that has recorded `k` events
/// and sees more than `k` sent payloads can therefore always transmit the
/// payload at index `k` next.
pub proof fn lemma_next_round_trip(op: Operation, events: Seq<Event>)
    ensures
        run_spec(op, events).0.len() <= events.len() + 1,
{
}

/// Trace stability of the shared prefix: a prefix that failed within the
/// recorded events, or completed, is unchanged by recording more.
proof fn lemma_prefix_stable(e1: Seq<Event>, e2: Seq<Event>, i: int, key: Seq<u8>)
    requires
        e1.len() <= e2.len(),
        forall|j: int| 0 <= j < e1.len() ==> e2[j] == e1[j],
        i >= 0,
        prefix_spec(e1, i, key).1 is Some ==> i + prefix_spec(e1, i, key).0.len() <= e1.len(),
    ensures
        prefix_spec(e2, i, key) == prefix_spec(e1, i, key),
{
}

/// Trace stability of a full balance read phase.
proof fn lemma_read_phase_stable(e1: Seq<Event>, e2: Seq<Event>, i: int, key: Seq<u8>)
    requires
        e1.len() <= e2.len(),
        forall|j: int| 0 <= j < e1.len() ==> e2[j] == e1[j],
        i >= 0,
        !(read_phase_spec(e1, i, key).1 is Balance) ==> i + read_phase_spec(e1, i, key).0.len()
            <= e1.len(),
    ensures
        read_phase_spec(e2, i, key) == read_phase_spec(e1, i, key),
{
    lemma_prefix_stable(e1, e2, i, key);
}

/// Law: a finished workflow is determined: once the recorded events cover
/// every sent payload, recording further events changes neither the sent
/// payloads nor the outcome. This is what lets a driver stop as soon as the
/// trace asks for no round trip beyond those already performed.
pub proof fn lemma_trace_stable(op: Operation, e1: Seq<Event>, e2: Seq<Event>)
    requires
        e1.len() <= e2.len(),
        forall|j: int| 0 <= j < e1.len() ==> e2[j] == e1[j],
        run_spec(op, e1).0.len() <= e1.len(),
    ensures
        run_spec(op, e2) == run_spec(op, e1),
{
    match op {
        Operation::ReadId => {
        },
        Operation::ReadBalance => {
            lemma_read_phase_stable(e1, e2, 0, app_key_spec());
        },
        Operation::SetBalance { value } => {
            lemma_write_stable(e1, e2, init_balance_spec(value));
        },
        Operation::Increase { value } => {
            lemma_write_stable(e1, e2, increase_balance_spec(value));
        },
        Operation::Decrease { value } => {
            lemma_write_stable(e1, e2, decrease_balance_spec(value));
        },
        Operation::InitCard => {
            lemma_prefix_stable(e1, e2, 0, default_key_spec());
        },
    }
}

/// Trace stability of a balance-mutating workflow.
proof fn lemma_write_stable(e1: Seq<Event>, e2: Seq<Event>, wp: Seq<u8>)
    requires
        e1.len() <= e2.len(),
        forall|j: int| 0 <= j < e1.len() ==> e2[j] == e1[j],
        write_run_spec(e1, wp).0.len() <= e1.len(),
    ensures
        write_run_spec(e2, wp) == write_run_spec(e1, wp),
{
    let pre = prefix_spec(e1, 0, app_key_spec());
    lemma_prefix_stable(e1, e2, 0, app_key_spec());
    if pre.1 is None && ev_reply(e1, 4) {
        lemma_read_phase_stable(e1, e2, 5, app_key_spec());
    }
}

/// No command payload other than the beep command itself equals the beep
/// payload: each differs in length or in its opcode byte.
proof fn lemma_not_beep()
    ensures
        mifare_request_spec() != beep_spec(2),
        anticollision_spec() != beep_spec(2),
        read_balance_spec() != beep_spec(2),
        init_card_spec() != beep_spec(2),
        forall|id: CardId| select_card_spec(id) != beep_spec(2),
        forall|key: Seq<u8>| key.len() == 6 ==> authenticate_spec(key) != beep_spec(2),
        forall|v: u32| init_balance_spec(v) != beep_spec(2),
        forall|v: u32| increase_balance_spec(v) != beep_spec(2),
        forall|v: u32| decrease_balance_spec(v) != beep_spec(2),
{
    assert(mifare_request_spec()[2] == 1 && beep_spec(2)[2] == 6);
    assert(anticollision_spec().len() == 4 && beep_spec(2).len() == 5);
    assert(read_balance_spec()[2] == 0x0b);
    assert(init_card_spec().len() == 21);
    assert forall|id: CardId| select_card_spec(id) != beep_spec(2) by {
        assert(select_card_spec(id).len() == 8);
    }
    assert forall|key: Seq<u8>| key.len() == 6 implies authenticate_spec(key) != beep_spec(2) by {
        assert(authenticate_spec(key).len() == 12);
    }
    assert forall|v: u32| init_balance_spec(v) != beep_spec(2) by {
        assert(init_balance_spec(v).len() == 9);
    }
    assert forall|v: u32| increase_balance_spec(v) != beep_spec(2) by {
        assert(increase_balance_spec(v).len() == 9);
    }
    assert forall|v: u32| decrease_balance_spec(v) != beep_spec(2) by {
        assert(decrease_balance_spec(v).len() == 9);
    }
}

/// Beep count of a list with one more payload.
proof fn lemma_beep_count_push(s: Seq<Seq<u8>>, x: Seq<u8>)
    ensures
        beep_count(s.push(x)) == beep_count(s) + (if x == beep_spec(2) {
            1nat
        } else {
            0nat
        }),
{
    assert(s.push(x).drop_last() =~= s);
}

/// A list without the beep payload has beep count zero.
proof fn lemma_beep_count_zero(s: Seq<Seq<u8>>)
    requires
        forall|j: int| 0 <= j < s.len() ==> s[j] != beep_spec(2),
    ensures
        beep_count(s) == 0,
    decreases s.len(),
{
    if s.len() > 0 {
        lemma_beep_count_zero(s.drop_last());
    }
}

/// Beep count distributes over concatenation.
proof fn lemma_beep_count_concat(a: Seq<Seq<u8>>, b: Seq<Seq<u8>>)
    ensures
        beep_count(a + b) == beep_count(a) + beep_count(b),
    decreases b.len(),
{
    if b.len() == 0 {
        assert(a + b =~= a);
    } else {
        assert((a + b).drop_last() =~= a + b.drop_last());
        lemma_beep_count_concat(a, b.drop_last());
    }
}

/// The shared workflow prefix never beeps.
proof fn lemma_prefix_no_beep(events: Seq<Event>, i: int, key: Seq<u8>)
    requires
        key.len() == 6,
    ensures
        beep_count(prefix_spec(events, i, key).0) == 0,
{
    lemma_not_beep();
    let s = prefix_spec(events, i, key).0;
    assert(forall|j: int| 0 <= j < s.len() ==> s[j] != beep_spec(2));
    lemma_beep_count_zero(s);
}

/// A full balance read phase never beeps by itself.
proof fn lemma_read_phase_no_beep(events: Seq<Event>, i: int, key: Seq<u8>)
    requires
        key.len() == 6,
    ensures
        beep_count(read_phase_spec(events, i, key).0) == 0,
{
    lemma_prefix_no_beep(events, i, key);
    lemma_not_beep();
    let pre = prefix_spec(events, i, key);
    if pre.1 is None {
        lemma_beep_count_push(pre.0, read_balance_spec());
    }
}

/// Law: every successful workflow triggers exactly one beep, and every
/// failed workflow triggers none.
pub proof fn lemma_beep_on_success(op: Operation, events: Seq<Event>)
    ensures
        beep_count(run_spec(op, events).0) == (if outcome_ok(run_spec(op, events).1) {
            1int
        } else {
            0int
        }),
{
    lemma_not_beep();
    let s2 = seq![mifare_request_spec(), anticollision_spec()];
    match op {
        Operation::ReadId => {
            if ev_reply(events, 0) && ev_reply(events, 1) && ev_bytes(events, 1).len() > 13 {
                let s3 = seq![mifare_request_spec(), anticollision_spec(), beep_spec(2)];
                assert(forall|j: int| 0 <= j < s2.len() ==> s2[j] != beep_spec(2));
                lemma_beep_count_zero(s2);
                lemma_beep_count_push(s2, beep_spec(2));
                assert(s3 =~= s2.push(beep_spec(2)));
            } else {
                let s = read_id_spec(events).0;
                assert(forall|j: int| 0 <= j < s.len() ==> s[j] != beep_spec(2));
                lemma_beep_count_zero(s);
            }
        },
        Operation::ReadBalance => {
            lemma_read_phase_no_beep(events, 0, app_key_spec());
            let phase = read_phase_spec(events, 0, app_key_spec());
            if phase.1 is Balance {
                lemma_beep_count_push(phase.0, beep_spec(2));
            }
        },
        Operation::SetBalance { value } => {
            lemma_write_beeps(events, init_balance_spec(value));
        },
        Operation::Increase { value } => {
            lemma_write_beeps(events, increase_balance_spec(value));
        },
        Operation::Decrease { value } => {
            lemma_write_beeps(events, decrease_balance_spec(value));
        },
        Operation::InitCard => {
            lemma_prefix_no_beep(events, 0, default_key_spec());
            let pre = prefix_spec(events, 0, default_key_spec());
            if pre.1 is None {
                lemma_beep_count_push(pre.0, init_card_spec());
                if ev_reply(events, 4) {
                    lemma_beep_count_push(pre.0.push(init_card_spec()), beep_spec(2));
                }
            }
        },
    }
}

/// Beep discipline of a balance-mutating workflow whose write payload is
/// itself no beep command.
proof fn lemma_write_beeps(events: Seq<Event>, wp: Seq<u8>)
    requires
        wp != beep_spec(2),
    ensures
        beep_count(write_run_spec(events, wp).0) == (if write_run_spec(events, wp).1 is Balance {
            1int
        } else {
            0int
        }),
{
    lemma_prefix_no_beep(events, 0, app_key_spec());
    let pre = prefix_spec(events, 0, app_key_spec());
    if pre.1 is None {
        lemma_beep_count_push(pre.0, wp);
        let s = pre.0.push(wp);
        if ev_reply(events, 4) {
            lemma_read_phase_no_beep(events, 5, app_key_spec());
            let confirm = read_phase_spec(events, 5, app_key_spec());
            lemma_beep_count_concat(s, confirm.0);
            if confirm.1 is Balance {
                lemma_beep_count_push(s + confirm.0, beep_spec(2));
            }
        }
    }
}

} // verus!
