//! Forward traversal of the configuration table's entry stream: the run of
//! `total_entries` consecutive records that starts 44 bytes into the table,
//! immediately after the header.

use vstd::prelude::*;

use crate::config_table::CONFIGURATION_TABLE_HEADER_LENGTH;
use crate::entry::{code_of, entry_length, EntryError, MPEntryCode};

verus! {

/// The widest entry kind; one step never advances the offset by more.
pub const MAX_ENTRY_LENGTH: usize = 20;

/// A finite, forward-only walk over the entry stream. The iterator holds
/// only offsets and counts; the table's bytes are handed to each `next`
/// call, so every read is bounds-checked against that buffer.
#[derive(Clone, Copy, Debug)]
pub struct EntryIterator {
    /// Byte offset of the next record, relative to the first entry.
    pub current_offset: usize,
    /// Entries yielded so far.
    pub entries_sofar: usize,
    /// Entries the header promises the stream holds.
    pub total_entries: usize,
}

impl EntryIterator {
    /// The iterator's invariant: counts fit the header's 16-bit entry
    /// count, and the offset cannot outrun twenty bytes per entry consumed,
    /// which keeps every position it can reach well inside `usize`.
    pub open spec fn wf(self) -> bool {
        &&& self.total_entries <= 0xFFFF
        &&& self.entries_sofar <= self.total_entries
        &&& self.current_offset <= MAX_ENTRY_LENGTH * self.entries_sofar
    }

    /// What one `next` call does, as a function of the iterator's state and
    /// the table's bytes: the successor state and the yielded outcome.
    pub open spec fn spec_next(self, data: Seq<u8>) -> (EntryIterator, Result<
        Option<MPEntryCode>,
        EntryError,
    >) {
        if self.entries_sofar >= self.total_entries {
            (self, Ok(None))
        } else if CONFIGURATION_TABLE_HEADER_LENGTH + self.current_offset >= data.len() {
            (self, Err(EntryError::OutOfBounds))
        } else {
            let code = code_of(data[CONFIGURATION_TABLE_HEADER_LENGTH + self.current_offset]);
            if code == MPEntryCode::Unknown {
                (
                    self,
                    Err(
                        EntryError::UnknownEntryCode(
                            data[CONFIGURATION_TABLE_HEADER_LENGTH + self.current_offset],
                        ),
                    ),
                )
            } else {
                (
                    EntryIterator {
                        current_offset: (self.current_offset + entry_length(code)) as usize,
                        entries_sofar: (self.entries_sofar + 1) as usize,
                        total_entries: self.total_entries,
                    },
                    Ok(Some(code)),
                )
            }
        }
    }

    /// The state after `k` calls of `next` on the table `data`.
    pub open spec fn spec_iterate(self, data: Seq<u8>, k: nat) -> EntryIterator
        decreases k,
    {
        if k == 0 {
            self
        } else {
            self.spec_iterate(data, (k - 1) as nat).spec_next(data).0
        }
    }

    /// Yield the classification of the next entry of `table`, or report why
    /// the walk stopped. Exhaustion (`Ok(None)`) and the two errors leave
    /// the iterator unchanged, so a stopped walk stays stopped; a yielded
    /// entry advances the offset by the entry's fixed length.
    pub fn next(&mut self, table: &[u8]) -> (r: Result<Option<MPEntryCode>, EntryError>)
        requires
            old(self).wf(),
        ensures
            final(self).wf(),
            *final(self) == old(self).spec_next(table@).0,
            r == old(self).spec_next(table@).1,
    {
        if self.entries_sofar >= self.total_entries {
            return Ok(None);
        }
        let position: usize = CONFIGURATION_TABLE_HEADER_LENGTH + self.current_offset;
        if position >= table.len() {
            return Err(EntryError::OutOfBounds);
        }
        let code = MPEntryCode::from_u8(table[position]);
        if code == MPEntryCode::Unknown {
            return Err(EntryError::UnknownEntryCode(table[position]));
        }
        self.entries_sofar = self.entries_sofar + 1;
        self.current_offset = self.current_offset + code.length();
        Ok(Some(code))
    }
}

/// The classification byte of the `i`th record of a stream of 8-byte bus
/// entries is in bounds and reads 1.
pub open spec fn bus_code_at(data: Seq<u8>, i: int) -> bool {
    &&& CONFIGURATION_TABLE_HEADER_LENGTH + 8 * i < data.len()
    &&& data[CONFIGURATION_TABLE_HEADER_LENGTH + 8 * i] == 1u8
}

/// See `bus_code_at`: the stream's first `n` records are bus entries.
pub open spec fn bus_stream(data: Seq<u8>, n: int) -> bool {
    forall|i: int| 0 <= i < n ==> #[trigger] bus_code_at(data, i)
}

/// A synthetic stream of `n` consecutive bus entries yields exactly `n`
/// classifications, every one of them `Bus`, and stops after the `n`th:
/// the call after that reports exhaustion, not an entry.
pub proof fn lemma_bus_stream_yields(it: EntryIterator, data: Seq<u8>)
    requires
        it.wf(),
        it.entries_sofar == 0,
        it.current_offset == 0,
        bus_stream(data, it.total_entries as int),
    ensures
        forall|k: int|
            0 <= k < it.total_entries ==> #[trigger] it.spec_iterate(data, k as nat).spec_next(
                data,
            ).1 == Ok::<Option<MPEntryCode>, EntryError>(Some(MPEntryCode::Bus)),
        it.spec_iterate(data, it.total_entries as nat).spec_next(data).1 == Ok::<
            Option<MPEntryCode>,
            EntryError,
        >(None),
{
    assert forall|k: int| 0 <= k < it.total_entries implies #[trigger] it.spec_iterate(
        data,
        k as nat,
    ).spec_next(data).1 == Ok::<Option<MPEntryCode>, EntryError>(Some(MPEntryCode::Bus)) by {
        lemma_bus_stream_state(it, data, k);
        assert(bus_code_at(data, k));
    }
    lemma_bus_stream_state(it, data, it.total_entries as int);
}

/// Over a stream that begins with at least `k` bus entries, `k` steps from
/// the start land exactly `8 * k` bytes in with `k` entries consumed.
pub proof fn lemma_bus_stream_state(it: EntryIterator, data: Seq<u8>, k: int)
    requires
        it.wf(),
        it.entries_sofar == 0,
        it.current_offset == 0,
        bus_stream(data, k),
        0 <= k <= it.total_entries,
    ensures
        it.spec_iterate(data, k as nat) == (EntryIterator {
            current_offset: (8 * k) as usize,
            entries_sofar: k as usize,
            total_entries: it.total_entries,
        }),
    decreases k,
{
    if k > 0 {
        lemma_bus_stream_state(it, data, k - 1);
        assert(bus_code_at(data, k - 1));
    }
}

/// A state that `spec_next` maps to itself is final: any number of further
/// steps leaves the iterator exactly there.
pub proof fn lemma_stuck_state(it: EntryIterator, data: Seq<u8>, k: nat)
    requires
        it.spec_next(data).0 == it,
    ensures
        it.spec_iterate(data, k) == it,
    decreases k,
{
    if k > 0 {
        lemma_stuck_state(it, data, (k - 1) as nat);
    }
}

/// Appending one record with an unrecognized type code after `n` bus
/// entries, with the stream walked for `n + 1` promised entries: the walk
/// yields the `n` bus classifications, then every later call reports the
/// unknown code as a terminal error; `Unknown` is never yielded as an
/// entry, and the iterator never moves past the offending record.
pub proof fn lemma_unknown_entry_terminates(it: EntryIterator, data: Seq<u8>)
    requires
        it.wf(),
        it.entries_sofar == 0,
        it.current_offset == 0,
        it.total_entries >= 1,
        bus_stream(data, it.total_entries - 1),
        CONFIGURATION_TABLE_HEADER_LENGTH + 8 * (it.total_entries - 1) < data.len(),
        code_of(data[CONFIGURATION_TABLE_HEADER_LENGTH + 8 * (it.total_entries - 1)])
            == MPEntryCode::Unknown,
    ensures
        forall|k: int|
            0 <= k < it.total_entries - 1 ==> #[trigger] it.spec_iterate(data, k as nat).spec_next(
                data,
            ).1 == Ok::<Option<MPEntryCode>, EntryError>(Some(MPEntryCode::Bus)),
        forall|k: int|
            it.total_entries - 1 <= k ==> #[trigger] it.spec_iterate(data, k as nat).spec_next(
                data,
            ).1 == Err::<Option<MPEntryCode>, EntryError>(
                EntryError::UnknownEntryCode(
                    data[CONFIGURATION_TABLE_HEADER_LENGTH + 8 * (it.total_entries - 1)],
                ),
            ),
{
    let n = it.total_entries - 1;
    let halted = EntryIterator {
        current_offset: (8 * n) as usize,
        entries_sofar: n as usize,
        total_entries: it.total_entries,
    };
    assert forall|k: int| 0 <= k < n implies #[trigger] it.spec_iterate(data, k as nat).spec_next(
        data,
    ).1 == Ok::<Option<MPEntryCode>, EntryError>(Some(MPEntryCode::Bus)) by {
        lemma_bus_stream_state(it, data, k);
        assert(bus_code_at(data, k));
    }
    lemma_bus_stream_state(it, data, n);
    assert(it.spec_iterate(data, n as nat) == halted);
    assert(halted.spec_next(data).0 == halted);
    assert forall|k: int| n <= k implies #[trigger] it.spec_iterate(data, k as nat).spec_next(
        data,
    ).1 == Err::<Option<MPEntryCode>, EntryError>(
        EntryError::UnknownEntryCode(data[CONFIGURATION_TABLE_HEADER_LENGTH + 8 * n]),
    ) by {
        lemma_iterate_add(it, data, n as nat, (k - n) as nat);
        lemma_stuck_state(halted, data, (k - n) as nat);
    }
}

/// Iteration composes: `a + b` steps are `b` steps from the state that
/// `a` steps reach.
pub proof fn lemma_iterate_add(it: EntryIterator, data: Seq<u8>, a: nat, b: nat)
    ensures
        it.spec_iterate(data, a + b) == it.spec_iterate(data, a).spec_iterate(data, b),
    decreases b,
{
    if b > 0 {
        lemma_iterate_add(it, data, a, (b - 1) as nat);
    }
}

} // verus!
