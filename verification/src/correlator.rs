//! Time-Tagged Message Correlator: ingests batches of timestamped samples,
//! keyed by originating agent, and maintains a per-agent table of the last
//! qualifying detection time. Entries are never deleted by elapsed time;
//! recency filtering is the consensus decision's job.

use vstd::prelude::*;

use crate::clock::Timestamp;
use crate::players::{PlayerNumber, Players};

verus! {

/// One time-tagged sample handed to the correlator: when `qualifying` is
/// true the sample is fresh evidence for `player_number`; otherwise it is
/// dropped without affecting the table.
#[derive(Clone, Copy, Debug, PartialEq, Eq)]
pub struct Sample {
    pub timestamp: Timestamp,
    pub qualifying: bool,
    pub player_number: PlayerNumber,
}

/// The table contents after ingesting `batch`, oldest first, into `table`:
/// each qualifying sample overwrites its agent's entry with its timestamp,
/// and every other entry is left untouched.
pub open spec fn ingested(table: Seq<Option<Timestamp>>, batch: Seq<Sample>) -> Seq<
    Option<Timestamp>,
>
    decreases batch.len(),
{
    if batch.len() == 0 {
        table
    } else {
        let prev = ingested(table, batch.drop_last());
        let s = batch.last();
        if s.qualifying {
            prev.update(s.player_number.as_index(), Some(s.timestamp))
        } else {
            prev
        }
    }
}

/// Whether `batch` holds a qualifying sample for the agent at table
/// position `agent`.
pub open spec fn has_qualifying(batch: Seq<Sample>, agent: int) -> bool {
    exists|j: int|
        0 <= j < batch.len() && (#[trigger] batch[j]).qualifying && batch[j].player_number.as_index()
            == agent
}

/// The timestamp of the last qualifying sample in `batch` for the agent at
/// table position `agent`; meaningful only when `has_qualifying` holds.
pub open spec fn last_qualifying_time(batch: Seq<Sample>, agent: int) -> Timestamp
    decreases batch.len(),
{
    if batch.len() == 0 {
        0
    } else if batch.last().qualifying && batch.last().player_number.as_index() == agent {
        batch.last().timestamp
    } else {
        last_qualifying_time(batch.drop_last(), agent)
    }
}

/// Ingest one batch of samples into the per-agent detection table.
pub fn ingest(table: &mut Players<Option<Timestamp>>, batch: &Vec<Sample>)
    ensures
        final(table)@ == ingested(old(table)@, batch@),
{
    let mut i: usize = 0;
    while i < batch.len()
        invariant
            i <= batch@.len(),
            table@ == ingested(old(table)@, batch@.take(i as int)),
        decreases batch@.len() - i,
    {
        proof {
            assert(batch@.take(i as int + 1).drop_last() =~= batch@.take(i as int));
            assert(batch@.take(i as int + 1).last() == batch@[i as int]);
        }
        let s = batch[i];
        if s.qualifying {
            table.set(s.player_number, Some(s.timestamp));
        }
        i = i + 1;
    }
    proof {
        assert(batch@.take(batch@.len() as int) =~= batch@);
    }
}

/// Per-agent effect of one ingest call: when the batch holds qualifying
/// evidence for an agent, that agent's entry afterwards holds the timestamp
/// of the batch's last qualifying sample for it; otherwise the entry is left
/// untouched. The table's size never changes.
pub proof fn lemma_ingest_last_writer(table: Seq<Option<Timestamp>>, batch: Seq<Sample>, agent: int)
    requires
        table.len() == crate::players::PLAYER_COUNT,
        0 <= agent < table.len(),
    ensures
        ingested(table, batch).len() == table.len(),
        has_qualifying(batch, agent) ==> ingested(table, batch)[agent] == Some(
            last_qualifying_time(batch, agent),
        ),
        !has_qualifying(batch, agent) ==> ingested(table, batch)[agent] == table[agent],
    decreases batch.len(),
{
    if batch.len() > 0 {
        lemma_ingest_last_writer(table, batch.drop_last(), agent);
        let s = batch.last();
        assert(0 <= s.player_number.as_index() < table.len());
        if s.qualifying && s.player_number.as_index() == agent {
            assert(has_qualifying(batch, agent));
        } else {
            if has_qualifying(batch, agent) {
                let j = choose|j: int|
                    0 <= j < batch.len() && (#[trigger] batch[j]).qualifying
                        && batch[j].player_number.as_index() == agent;
                assert(j < batch.len() - 1);
                assert(batch.drop_last()[j] == batch[j]);
                assert(has_qualifying(batch.drop_last(), agent));
            }
            if has_qualifying(batch.drop_last(), agent) {
                let j = choose|j: int|
                    0 <= j < batch.drop_last().len() && (#[trigger] batch.drop_last()[j]).qualifying
                        && batch.drop_last()[j].player_number.as_index() == agent;
                assert(batch[j] == batch.drop_last()[j]);
                assert(has_qualifying(batch, agent));
            }
        }
    }
}

/// Correlator overwrite law: within one batch whose timestamps are
/// non-decreasing, the last qualifying sample for an agent is also the
/// latest one, so ingesting two (or more) qualifying samples for the same
/// agent keeps only the later timestamp: last-writer-by-timestamp wins.
pub proof fn lemma_correlator_overwrite(
    table: Seq<Option<Timestamp>>,
    batch: Seq<Sample>,
    agent: int,
)
    requires
        table.len() == crate::players::PLAYER_COUNT,
        0 <= agent < table.len(),
        forall|i: int, j: int|
            0 <= i <= j < batch.len() ==> #[trigger] batch[i].timestamp
                <= #[trigger] batch[j].timestamp,
        has_qualifying(batch, agent),
    ensures
        ingested(table, batch)[agent] == Some(last_qualifying_time(batch, agent)),
        forall|j: int|
            0 <= j < batch.len() && (#[trigger] batch[j]).qualifying
                && batch[j].player_number.as_index() == agent ==> batch[j].timestamp
                <= last_qualifying_time(batch, agent),
    decreases batch.len(),
{
    lemma_ingest_last_writer(table, batch, agent);
    let s = batch.last();
    if s.qualifying && s.player_number.as_index() == agent {
        assert(last_qualifying_time(batch, agent) == s.timestamp);
    } else {
        let shorter = batch.drop_last();
        if has_qualifying(batch, agent) {
            let j = choose|j: int|
                0 <= j < batch.len() && (#[trigger] batch[j]).qualifying
                    && batch[j].player_number.as_index() == agent;
            assert(j < batch.len() - 1);
            assert(shorter[j] == batch[j]);
            assert(has_qualifying(shorter, agent));
        }
        assert forall|i: int, j: int| 0 <= i <= j < shorter.len() implies #[trigger] shorter[i].timestamp
            <= #[trigger] shorter[j].timestamp by {
            assert(shorter[i] == batch[i]);
            assert(shorter[j] == batch[j]);
        }
        lemma_correlator_overwrite(table, shorter, agent);
        assert(last_qualifying_time(batch, agent) == last_qualifying_time(shorter, agent));
        assert forall|j: int|
            0 <= j < batch.len() && (#[trigger] batch[j]).qualifying
                && batch[j].player_number.as_index() == agent implies batch[j].timestamp
            <= last_qualifying_time(batch, agent) by {
            assert(j < batch.len() - 1);
            assert(shorter[j] == batch[j]);
        }
    }
}

} // verus!
