//! The core and its memory together, as a conversation with the store.
//!
//! The store is asked for the text under one key at a time. [`wanted`] names
//! the key; [`answer`] takes whatever the store replied, judges it, lets the
//! core take its step, and returns the cell to set in the store where the
//! instruction wrote to memory. Whoever owns the store repeats the two until
//! nothing is wanted any more, and stops at the first failure.
//!
//! [`turn`] says what one round of this does to a store that keeps what it
//! is given.

use vstd::prelude::*;
use crate::cpu::{MemoryWrite, CPU};
use crate::hex::byte_text;
use crate::isa::Fault;
use crate::ram::{
    key, key_text, read, read_result, reply_of, reply_view, value_at, write_leaves_other_cells,
    write_then_read, written, Cell, MemoryError, Store,
};

verus! {

/// Why a run had to stop before the halt.
#[derive(Clone, Copy, Debug, PartialEq, Eq, Structural)]
pub enum Abort {
    /// The cell that the core asked for could not be read.
    Memory(MemoryError),
    /// The core refused to go on.
    Cpu(Fault),
}

/// The state of the core after a reply of the store, and the write that the
/// step asks for or the reason to stop.
///
/// A halted core takes no notice of the reply. A reply that does not read as
/// a byte stops the run and leaves the core as it was. Otherwise the core
/// takes its step with the byte.
pub open spec fn answered(cpu: CPU, reply: Option<Seq<char>>) -> (
    CPU,
    Result<Option<MemoryWrite>, Abort>,
) {
    if cpu.halted {
        (cpu, Ok(None))
    } else {
        match read_result(reply) {
            Err(error) => (cpu, Err(Abort::Memory(error))),
            Ok(byte) => (
                cpu.stepped(byte).0,
                match cpu.stepped(byte).1 {
                    Ok(write) => Ok(write),
                    Err(fault) => Err(Abort::Cpu(fault)),
                },
            ),
        }
    }
}

/// One round of the conversation with a store that keeps what it is given:
/// the core after the round, the store after it, and whether the run may go
/// on.
pub open spec fn turn(cpu: CPU, store: Store) -> (CPU, Store, Result<(), Abort>) {
    match cpu.awaited() {
        None => (cpu, store, Ok(())),
        Some(addr) => {
            let (next, outcome) = answered(cpu, reply_of(store, addr));
            match outcome {
                Ok(Some(write)) => (next, written(store, write.address, write.value), Ok(())),
                Ok(None) => (next, store, Ok(())),
                Err(abort) => (next, store, Err(abort)),
            }
        },
    }
}

/// A halted machine stays as it is: neither the core nor the store changes.
pub proof fn halted_machine_rests(cpu: CPU, store: Store)
    requires
        cpu.halted,
    ensures
        turn(cpu, store) == (cpu, store, Ok::<(), Abort>(())),
{
}

/// A round changes one cell at most: the one that the step wrote. That cell
/// reads as the byte written, and every other cell reads as before.
pub proof fn turn_writes_one_cell(cpu: CPU, store: Store, other: u16)
    ensures
        ({
            let (next, after, outcome) = turn(cpu, store);
            match cpu.awaited() {
                None => after == store,
                Some(addr) => match answered(cpu, reply_of(store, addr)).1 {
                    Ok(Some(write)) => {
                        &&& value_at(after, write.address) == Ok::<u8, MemoryError>(write.value)
                        &&& other != write.address ==> value_at(after, other) == value_at(
                            store,
                            other,
                        )
                    },
                    _ => after == store,
                },
            }
        }),
{
    match cpu.awaited() {
        None => {},
        Some(addr) => match answered(cpu, reply_of(store, addr)).1 {
            Ok(Some(write)) => {
                write_then_read(store, write.address, write.value);
                if other != write.address {
                    write_leaves_other_cells(store, write.address, write.value, other);
                }
            },
            _ => {},
        },
    }
}

/// A round that goes well on a running machine brings the end nearer.
pub proof fn turn_makes_progress(cpu: CPU, store: Store)
    requires
        !cpu.halted,
        turn(cpu, store).2 is Ok,
    ensures
        turn(cpu, store).0.steps_left() < cpu.steps_left(),
        turn(cpu, store).0.pc >= cpu.pc,
{
}

/// The machine after up to `n` rounds: it stops early at the first round
/// that fails.
pub open spec fn turns(cpu: CPU, store: Store, n: nat) -> (CPU, Store, Result<(), Abort>)
    decreases n,
{
    if n == 0 {
        (cpu, store, Ok(()))
    } else {
        let (next, after, outcome) = turn(cpu, store);
        if outcome is Err {
            (next, after, outcome)
        } else {
            turns(next, after, (n - 1) as nat)
        }
    }
}

/// Every run ends: whatever the store holds, within as many rounds as the
/// core has steps left, and one more, the core has halted or the run has
/// failed.
pub proof fn every_run_ends(cpu: CPU, store: Store, n: nat)
    requires
        n > cpu.steps_left(),
    ensures
        turns(cpu, store, n).0.halted || turns(cpu, store, n).2 is Err,
    decreases n,
{
    let (next, after, outcome) = turn(cpu, store);
    if outcome is Ok {
        if cpu.halted {
            halted_machine_rests(cpu, store);
            rest_of_a_halted_run(cpu, store, (n - 1) as nat);
        } else {
            turn_makes_progress(cpu, store);
            every_run_ends(next, after, (n - 1) as nat);
        }
    }
}

/// However many rounds follow a halt, nothing changes any more.
pub proof fn rest_of_a_halted_run(cpu: CPU, store: Store, n: nat)
    requires
        cpu.halted,
    ensures
        turns(cpu, store, n) == (cpu, store, Ok::<(), Abort>(())),
    decreases n,
{
    if n > 0 {
        halted_machine_rests(cpu, store);
        rest_of_a_halted_run(cpu, store, (n - 1) as nat);
    }
}

/// The key of the cell that the core wants next: that of the program
/// counter, or that of a pending load. `None` exactly when the core has
/// halted.
pub fn wanted(cpu: &CPU) -> (wanted: Option<String>)
    ensures
        wanted is None <==> cpu.halted,
        wanted is None <==> cpu.awaited() is None,
        wanted matches Some(text) ==> text@ == key_text(cpu.awaited()->0),
{
    match cpu.awaits() {
        Some(addr) => Some(key(addr)),
        None => None,
    }
}

/// Takes the reply of the store for the wanted key (`None` where the store
/// holds nothing under it) and lets the core take its step.
///
/// Returns the cell to set in the store, if the step wrote to memory; the
/// cell holds the key of the address written and the text of the byte. A
/// reply that is not a byte stops the run as a memory error and leaves the
/// core untouched; a fault of the core stops it as such. A halted core
/// ignores the reply.
pub fn answer(cpu: &mut CPU, reply: Option<&str>) -> (r: Result<Option<Cell>, Abort>)
    ensures
        *final(cpu) == answered(*old(cpu), reply_view(reply)).0,
        r matches Err(abort) ==> answered(*old(cpu), reply_view(reply)).1 == Err::<
            Option<MemoryWrite>,
            Abort,
        >(abort),
        r matches Ok(None) ==> answered(*old(cpu), reply_view(reply)).1 == Ok::<
            Option<MemoryWrite>,
            Abort,
        >(None),
        r matches Ok(Some(cell)) ==> answered(*old(cpu), reply_view(reply)).1 matches Ok(
            Some(write),
        ) && cell.key@ == key_text(write.address) && cell.value@ == byte_text(write.value),
{
    if cpu.halted {
        return Ok(None);
    }
    let byte = match read(reply) {
        Ok(byte) => byte,
        Err(error) => {
            return Err(Abort::Memory(error));
        },
    };
    match cpu.step(byte) {
        Ok(Some(write)) => Ok(Some(crate::ram::write(write.address, write.value))),
        Ok(None) => Ok(None),
        Err(fault) => Err(Abort::Cpu(fault)),
    }
}

} // verus!
