//! Command catalog: the fixed device command payloads and the offsets at
//! which the meaningful response fields live.
//!
//! Every payload starts with a fixed sub-header (`00 00 <opcode> <len> ...`);
//! parameters (card UID, little-endian balance values, keys, beep duration)
//! are appended to the template. Responses carry the card UID or a balance
//! as four bytes at offsets 9 through 12.

use vstd::prelude::*;

verus! {

/// Card memory block that stores the balance.
pub const BALANCE_BLOCK: u8 = 0x35;

/// The four UID / balance bytes of a response sit at offsets 9..=12.
pub const FIELD_OFFSET: usize = 9;

/// A card UID: the four bytes taken from an anticollision response.
#[derive(Clone, Copy, PartialEq, Eq, Structural, Debug)]
pub struct CardId {
    pub b0: u8,
    pub b1: u8,
    pub b2: u8,
    pub b3: u8,
}

/// The application key, installed on a card at initialization and used for
/// every normal balance operation.
pub open spec fn app_key_spec() -> Seq<u8> {
    seq![0x17u8, 0x05, 0x97, 0x27, 0x08, 0x59]
}

/// The factory default key, used only while initializing a card.
pub open spec fn default_key_spec() -> Seq<u8> {
    seq![0xffu8, 0xff, 0xff, 0xff, 0xff, 0xff]
}

/// Access-condition bytes written during card initialization:
/// key A has all permissions, key B is disabled.
pub open spec fn key_access_spec() -> Seq<u8> {
    seq![0xffu8, 0x07, 0x80, 0x69]
}

/// Payload of the mifare-request command.
pub open spec fn mifare_request_spec() -> Seq<u8> {
    seq![0x00u8, 0x00, 0x01, 0x02, 0x52]
}

/// Payload of the anticollision command.
pub open spec fn anticollision_spec() -> Seq<u8> {
    seq![0x00u8, 0x00, 0x02, 0x02]
}

/// Payload of the select-card command for a given UID.
pub open spec fn select_card_spec(id: CardId) -> Seq<u8> {
    seq![0x00u8, 0x00, 0x03, 0x02, id.b0, id.b1, id.b2, id.b3]
}

/// Payload of the authenticate command for the balance block with a key.
pub open spec fn authenticate_spec(key: Seq<u8>) -> Seq<u8> {
    seq![0x00u8, 0x00, 0x07, 0x02, 0x60, BALANCE_BLOCK] + key
}

/// Payload of the read-balance command.
pub open spec fn read_balance_spec() -> Seq<u8> {
    seq![0x00u8, 0x00, 0x0b, 0x02, BALANCE_BLOCK]
}

/// The four little-endian bytes of a 32-bit value.
pub open spec fn le_bytes_spec(value: u32) -> Seq<u8> {
    seq![
        (value % 256) as u8,
        ((value / 256) % 256) as u8,
        ((value / 65536) % 256) as u8,
        ((value / 16777216) % 256) as u8,
    ]
}

/// Payload of the init-balance command: writes `value` to the balance block.
pub open spec fn init_balance_spec(value: u32) -> Seq<u8> {
    seq![0x00u8, 0x00, 0x0a, 0x02, BALANCE_BLOCK] + le_bytes_spec(value)
}

/// Payload of the increase-balance command.
pub open spec fn increase_balance_spec(value: u32) -> Seq<u8> {
    seq![0x00u8, 0x00, 0x0d, 0x02, BALANCE_BLOCK] + le_bytes_spec(value)
}

/// Payload of the decrease-balance command.
pub open spec fn decrease_balance_spec(value: u32) -> Seq<u8> {
    seq![0x00u8, 0x00, 0x0c, 0x02, BALANCE_BLOCK] + le_bytes_spec(value)
}

/// Payload of the init-card command: writes the application key, the
/// access-condition bytes and the default key to the card's key block.
pub open spec fn init_card_spec() -> Seq<u8> {
    seq![0x00u8, 0x00, 0x09, 0x02, 0x37] + app_key_spec() + key_access_spec() + default_key_spec()
}

/// Payload of the beep command with a duration parameter.
pub open spec fn beep_spec(time: u8) -> Seq<u8> {
    seq![0x00u8, 0x00, 0x06, 0x01, time]
}

/// The UID bytes of an anticollision response: offsets 9..=12.
pub open spec fn card_id_of(r: Seq<u8>) -> CardId
    recommends
        r.len() > 13,
{
    CardId { b0: r[9], b1: r[10], b2: r[11], b3: r[12] }
}

/// The little-endian 32-bit value at offsets 9..=12 of a response.
pub open spec fn balance_of(r: Seq<u8>) -> u32
    recommends
        r.len() >= 13,
{
    (r[9] + r[10] * 256 + r[11] * 65536 + r[12] * 16777216) as u32
}

/// The application key as bytes.
pub fn app_key() -> (r: Vec<u8>)
    ensures
        r@ == app_key_spec(),
{
    let mut r: Vec<u8> = Vec::new();
    r.push(0x17);
    r.push(0x05);
    r.push(0x97);
    r.push(0x27);
    r.push(0x08);
    r.push(0x59);
    proof {
        assert(r@ =~= app_key_spec());
    }
    r
}

/// The factory default key as bytes.
pub fn default_key() -> (r: Vec<u8>)
    ensures
        r@ == default_key_spec(),
{
    let mut r: Vec<u8> = Vec::new();
    r.push(0xff);
    r.push(0xff);
    r.push(0xff);
    r.push(0xff);
    r.push(0xff);
    r.push(0xff);
    proof {
        assert(r@ =~= default_key_spec());
    }
    r
}

/// Builds the mifare-request payload.
pub fn mifare_request_payload() -> (r: Vec<u8>)
    ensures
        r@ == mifare_request_spec(),
{
    let mut r: Vec<u8> = Vec::new();
    r.push(0x00);
    r.push(0x00);
    r.push(0x01);
    r.push(0x02);
    r.push(0x52);
    proof {
        assert(r@ =~= mifare_request_spec());
    }
    r
}

/// Builds the anticollision payload.
pub fn anticollision_payload() -> (r: Vec<u8>)
    ensures
        r@ == anticollision_spec(),
{
    let mut r: Vec<u8> = Vec::new();
    r.push(0x00);
    r.push(0x00);
    r.push(0x02);
    r.push(0x02);
    proof {
        assert(r@ =~= anticollision_spec());
    }
    r
}

/// Builds the select-card payload for a UID.
pub fn select_card_payload(id: CardId) -> (r: Vec<u8>)
    ensures
        r@ == select_card_spec(id),
{
    let mut r: Vec<u8> = Vec::new();
    r.push(0x00);
    r.push(0x00);
    r.push(0x03);
    r.push(0x02);
    r.push(id.b0);
    r.push(id.b1);
    r.push(id.b2);
    r.push(id.b3);
    proof {
        assert(r@ =~= select_card_spec(id));
    }
    r
}

/// Builds the authenticate payload for the balance block with a key.
pub fn authenticate_payload(key: &Vec<u8>) -> (r: Vec<u8>)
    ensures
        r@ == authenticate_spec(key@),
{
    let mut r: Vec<u8> = Vec::new();
    r.push(0x00);
    r.push(0x00);
    r.push(0x07);
    r.push(0x02);
    r.push(0x60);
    r.push(BALANCE_BLOCK);
    let mut i: usize = 0;
    while i < key.len()
        invariant
            i <= key@.len(),
            r@ == seq![0x00u8, 0x00, 0x07, 0x02, 0x60, BALANCE_BLOCK] + key@.subrange(
                0,
                i as int,
            ),
        decreases key@.len() - i,
    {
        r.push(key[i]);
        proof {
            assert(key@.subrange(0, i + 1) =~= key@.subrange(0, i as int).push(key@[i as int]));
        }
        i = i + 1;
    }
    proof {
        assert(key@.subrange(0, key@.len() as int) =~= key@);
    }
    r
}

/// Builds the read-balance payload.
pub fn read_balance_payload() -> (r: Vec<u8>)
    ensures
        r@ == read_balance_spec(),
{
    let mut r: Vec<u8> = Vec::new();
    r.push(0x00);
    r.push(0x00);
    r.push(0x0b);
    r.push(0x02);
    r.push(BALANCE_BLOCK);
    proof {
        assert(r@ =~= read_balance_spec());
    }
    r
}

/// Appends the four little-endian bytes of `value`.
fn push_le_bytes(r: &mut Vec<u8>, value: u32)
    ensures
        final(r)@ == old(r)@ + le_bytes_spec(value),
{
    r.push((value % 256) as u8);
    r.push(((value / 256) % 256) as u8);
    r.push(((value / 65536) % 256) as u8);
    r.push(((value / 16777216) % 256) as u8);
    proof {
        assert(r@ =~= old(r)@ + le_bytes_spec(value));
    }
}

/// Builds the init-balance payload for a value.
pub fn init_balance_payload(value: u32) -> (r: Vec<u8>)
    ensures
        r@ == init_balance_spec(value),
{
    let mut r: Vec<u8> = Vec::new();
    r.push(0x00);
    r.push(0x00);
    r.push(0x0a);
    r.push(0x02);
    r.push(BALANCE_BLOCK);
    push_le_bytes(&mut r, value);
    proof {
        assert(r@ =~= init_balance_spec(value));
    }
    r
}

/// Builds the increase-balance payload for a value.
pub fn increase_balance_payload(value: u32) -> (r: Vec<u8>)
    ensures
        r@ == increase_balance_spec(value),
{
    let mut r: Vec<u8> = Vec::new();
    r.push(0x00);
    r.push(0x00);
    r.push(0x0d);
    r.push(0x02);
    r.push(BALANCE_BLOCK);
    push_le_bytes(&mut r, value);
    proof {
        assert(r@ =~= increase_balance_spec(value));
    }
    r
}

/// Builds the decrease-balance payload for a value.
pub fn decrease_balance_payload(value: u32) -> (r: Vec<u8>)
    ensures
        r@ == decrease_balance_spec(value),
{
    let mut r: Vec<u8> = Vec::new();
    r.push(0x00);
    r.push(0x00);
    r.push(0x0c);
    r.push(0x02);
    r.push(BALANCE_BLOCK);
    push_le_bytes(&mut r, value);
    proof {
        assert(r@ =~= decrease_balance_spec(value));
    }
    r
}

/// Builds the init-card payload: application key, access bytes, default key.
pub fn init_card_payload() -> (r: Vec<u8>)
    ensures
        r@ == init_card_spec(),
{
    let mut r: Vec<u8> = Vec::new();
    r.push(0x00);
    r.push(0x00);
    r.push(0x09);
    r.push(0x02);
    r.push(0x37);
    r.push(0x17);
    r.push(0x05);
    r.push(0x97);
    r.push(0x27);
    r.push(0x08);
    r.push(0x59);
    r.push(0xff);
    r.push(0x07);
    r.push(0x80);
    r.push(0x69);
    r.push(0xff);
    r.push(0xff);
    r.push(0xff);
    r.push(0xff);
    r.push(0xff);
    r.push(0xff);
    proof {
        assert(r@ =~= init_card_spec());
    }
    r
}

/// Builds the beep payload for a duration.
pub fn beep_payload(time: u8) -> (r: Vec<u8>)
    ensures
        r@ == beep_spec(time),
{
    let mut r: Vec<u8> = Vec::new();
    r.push(0x00);
    r.push(0x00);
    r.push(0x06);
    r.push(0x01);
    r.push(time);
    proof {
        assert(r@ =~= beep_spec(time));
    }
    r
}

/// Extracts the card UID from an anticollision response.
pub fn card_id_from(r: &Vec<u8>) -> (id: CardId)
    requires
        r@.len() > 13,
    ensures
        id == card_id_of(r@),
{
    CardId { b0: r[9], b1: r[10], b2: r[11], b3: r[12] }
}

/// Extracts the little-endian balance value from a read-balance response.
pub fn balance_from(r: &Vec<u8>) -> (value: u32)
    requires
        r@.len() >= 13,
    ensures
        value == balance_of(r@),
{
    (r[9] as u32) + (r[10] as u32) * 256 + (r[11] as u32) * 65536 + (r[12] as u32) * 16777216
}

} // verus!
