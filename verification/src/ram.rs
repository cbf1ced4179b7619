//! The addressable memory, as text over a key-value store.
//!
//! A cell lives in the store under the key `ram:` followed by the four
//! upper-case hexadecimal digits of its address, and its value is kept as
//! two upper-case hexadecimal digits. A cell that the store does not hold
//! reads as zero. A cell whose stored text is anything but two such digits
//! is corrupt, which is an error and never a zero.
//!
//! This module computes what goes to the store and judges what comes back.
//! Talking to the store is left to its owner: [`key`] and [`write`] give the
//! texts to send, [`read`] takes the reply.

use vstd::prelude::*;
use vstd::string::*;
use crate::hex::{
    address_text, address_text_is_injective, byte_text, byte_text_round_trip, decode_byte,
    encode_address, encode_byte, is_hex_text, text_byte,
};

verus! {

/// Why a cell could not be read.
#[derive(Clone, Copy, Debug, PartialEq, Eq, Structural)]
pub enum MemoryError {
    /// The store holds a text for the cell that is not two upper-case
    /// hexadecimal digits.
    Corrupt,
}

/// A cell as the store keeps it: its key and the text of its value.
#[derive(Debug, PartialEq, Eq)]
pub struct Cell {
    pub key: String,
    pub value: String,
}

/// What the store holds: a text under each key that was ever set.
pub type Store = Map<Seq<char>, Seq<char>>;

/// The prefix of every key.
pub open spec fn key_prefix() -> Seq<char> {
    seq!['r', 'a', 'm', ':']
}

/// The key of the cell at `addr`.
pub open spec fn key_text(addr: u16) -> Seq<char> {
    key_prefix() + address_text(addr)
}

/// The text that a reply stands for: its own, or that of zero where the
/// store holds nothing.
pub open spec fn reply_text(reply: Option<Seq<char>>) -> Seq<char> {
    match reply {
        Some(text) => text,
        None => byte_text(0),
    }
}

/// A reply as the text it holds.
pub open spec fn reply_view(reply: Option<&str>) -> Option<Seq<char>> {
    match reply {
        Some(text) => Some(text@),
        None => None,
    }
}

/// The outcome of a read, given the reply of the store.
pub open spec fn read_result(reply: Option<Seq<char>>) -> Result<u8, MemoryError> {
    match text_byte(reply_text(reply)) {
        Some(byte) => Ok(byte),
        None => Err(MemoryError::Corrupt),
    }
}

/// What the store replies when asked for the cell at `addr`.
pub open spec fn reply_of(store: Store, addr: u16) -> Option<Seq<char>> {
    if store.dom().contains(key_text(addr)) {
        Some(store[key_text(addr)])
    } else {
        None
    }
}

/// The store after `data` was written to the cell at `addr`.
pub open spec fn written(store: Store, addr: u16, data: u8) -> Store {
    store.insert(key_text(addr), byte_text(data))
}

/// What a read of the cell at `addr` gives.
pub open spec fn value_at(store: Store, addr: u16) -> Result<u8, MemoryError> {
    read_result(reply_of(store, addr))
}

/// The store after a list of writes, the first of them first, on top of
/// `store`.
pub open spec fn written_all(store: Store, writes: Seq<(u16, u8)>) -> Store
    decreases writes.len(),
{
    if writes.len() == 0 {
        store
    } else {
        written(written_all(store, writes.drop_last()), writes.last().0, writes.last().1)
    }
}

/// Different cells have different keys, and every key is the prefix and four
/// upper-case digits.
pub proof fn keys_are_distinct(a: u16, b: u16)
    ensures
        key_text(a).len() == 8,
        key_text(a).subrange(0, 4) == key_prefix(),
        is_hex_text(key_text(a).subrange(4, 8)),
        key_text(a) == key_text(b) ==> a == b,
{
    address_text_is_injective(a, b);
    assert(key_text(a).subrange(0, 4) =~= key_prefix());
    assert(key_text(a).subrange(4, 8) =~= address_text(a));
    assert(key_text(b).subrange(4, 8) =~= address_text(b));
}

/// A byte written to a cell is the byte read from it.
pub proof fn write_then_read(store: Store, addr: u16, data: u8)
    ensures
        value_at(written(store, addr, data), addr) == Ok::<u8, MemoryError>(data),
{
    byte_text_round_trip(data);
}

/// A write to one cell leaves what every other cell reads as it was.
pub proof fn write_leaves_other_cells(store: Store, addr: u16, data: u8, other: u16)
    requires
        other != addr,
    ensures
        value_at(written(store, addr, data), other) == value_at(store, other),
{
    keys_are_distinct(addr, other);
}

/// A cell that the store does not hold reads as zero.
pub proof fn absent_reads_zero(store: Store, addr: u16)
    requires
        !store.dom().contains(key_text(addr)),
    ensures
        value_at(store, addr) == Ok::<u8, MemoryError>(0),
{
    byte_text_round_trip(0);
}

/// A cell that was never written reads as zero: starting from an empty
/// store, after any writes to other cells.
pub proof fn never_written_reads_zero(writes: Seq<(u16, u8)>, addr: u16)
    requires
        forall|i: int| 0 <= i < writes.len() ==> (#[trigger] writes[i]).0 != addr,
    ensures
        value_at(written_all(Map::empty(), writes), addr) == Ok::<u8, MemoryError>(0),
    decreases writes.len(),
{
    if writes.len() == 0 {
        absent_reads_zero(Map::empty(), addr);
    } else {
        let before = writes.drop_last();
        assert forall|i: int| 0 <= i < before.len() implies (#[trigger] before[i]).0 != addr by {
            assert(before[i] == writes[i]);
        }
        never_written_reads_zero(before, addr);
        write_leaves_other_cells(
            written_all(Map::empty(), before),
            writes.last().0,
            writes.last().1,
            addr,
        );
    }
}

/// After any writes, a cell reads what the last write to it put there.
pub proof fn last_write_wins(store: Store, writes: Seq<(u16, u8)>, last: int)
    requires
        0 <= last < writes.len(),
        forall|i: int| last < i < writes.len() ==> (#[trigger] writes[i]).0 != writes[last].0,
    ensures
        value_at(written_all(store, writes), writes[last].0) == Ok::<u8, MemoryError>(
            writes[last].1,
        ),
    decreases writes.len(),
{
    let before = writes.drop_last();
    if last == writes.len() - 1 {
        write_then_read(written_all(store, before), writes[last].0, writes[last].1);
    } else {
        assert(before[last] == writes[last]);
        assert forall|i: int| last < i < before.len() implies (#[trigger] before[i]).0
            != before[last].0 by {
            assert(before[i] == writes[i]);
        }
        last_write_wins(store, before, last);
        write_leaves_other_cells(
            written_all(store, before),
            writes.last().0,
            writes.last().1,
            writes[last].0,
        );
    }
}

/// The key under which the store keeps the cell at `addr`.
pub fn key(addr: u16) -> (key: String)
    ensures
        key@ == key_text(addr),
        key@.len() == 8,
{
    proof {
        reveal_strlit("ram:");
    }
    let mut key = String::from_str("ram:");
    assert(key@ =~= key_prefix());
    let address = encode_address(addr);
    key.append(address.as_str());
    key
}

/// The cell to set in the store so that the cell at `addr` holds `data`.
///
/// The key is that of `addr`; the value is `data` as two upper-case
/// hexadecimal digits, which [`read`] takes back as `data`.
pub fn write(addr: u16, data: u8) -> (cell: Cell)
    ensures
        cell.key@ == key_text(addr),
        cell.value@ == byte_text(data),
        cell.value@.len() == 2,
        is_hex_text(cell.value@),
        read_result(Some(cell.value@)) == Ok::<u8, MemoryError>(data),
{
    proof {
        byte_text_round_trip(data);
    }
    Cell { key: key(addr), value: encode_byte(data) }
}

/// The byte that a cell holds, given what the store replied for its key:
/// `None` where the store holds nothing under the key.
///
/// An absent cell reads as zero. A text of two upper-case hexadecimal digits
/// reads as the byte it writes. Every other text is corrupt.
pub fn read(reply: Option<&str>) -> (r: Result<u8, MemoryError>)
    ensures
        r == read_result(reply_view(reply)),
        reply is None ==> r == Ok::<u8, MemoryError>(0),
        reply matches Some(text) ==> (r is Ok <==> text@.len() == 2 && is_hex_text(text@)),
{
    proof {
        byte_text_round_trip(0);
    }
    match reply {
        None => Ok(0),
        Some(text) => match decode_byte(text) {
            Some(byte) => Ok(byte),
            None => Err(MemoryError::Corrupt),
        },
    }
}

} // verus!
