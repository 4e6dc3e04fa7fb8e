//! Totals over the workers' counts, and short texts for the result table.

use std::time::Duration;

use vstd::prelude::*;
use vstd::string::StringExecFns;
use vstd::string::StringSliceAdditionalSpecFns;
use vstd::utf8::decode_utf8;
use vstd::utf8::is_char_boundary;

use crate::load_tester::worker::{StatsModel, WorkerStats};
use crate::text::{decimal, decimal_string};

verus! {

/// The counts of all workers together.
#[derive(Debug)]
pub struct Totals {
    pub total_requests: u64,
    pub bytes_sent: u64,
    pub bytes_received: u64,
    pub total_errors: u64,
    /// The latencies of all workers, worker after worker.
    pub latencies: Vec<Duration>,
}

impl View for Totals {
    type V = StatsModel;

    open spec fn view(&self) -> StatsModel {
        StatsModel {
            requests: self.total_requests as nat,
            bytes_sent: self.bytes_sent as nat,
            bytes_received: self.bytes_received as nat,
            latencies: self.latencies@,
            errors: self.total_errors as nat,
        }
    }
}

/// The counts of `sum` and of `stats` together.
pub open spec fn combined(sum: StatsModel, stats: StatsModel) -> StatsModel {
    StatsModel {
        requests: sum.requests + stats.requests,
        bytes_sent: sum.bytes_sent + stats.bytes_sent,
        bytes_received: sum.bytes_received + stats.bytes_received,
        latencies: sum.latencies + stats.latencies,
        errors: sum.errors + stats.errors,
    }
}

/// The counts of all of `stats` together, first to last.
pub open spec fn totals_of(stats: Seq<WorkerStats>) -> StatsModel
    decreases stats.len(),
{
    if stats.len() == 0 {
        StatsModel::zero()
    } else {
        combined(totals_of(stats.drop_last()), stats.last()@)
    }
}

/// No total is lower than the same total over the first `n` workers.
pub proof fn lemma_totals_grow(stats: Seq<WorkerStats>, n: int)
    requires
        0 <= n <= stats.len(),
    ensures
        totals_of(stats.take(n)).requests <= totals_of(stats).requests,
        totals_of(stats.take(n)).bytes_sent <= totals_of(stats).bytes_sent,
        totals_of(stats.take(n)).bytes_received <= totals_of(stats).bytes_received,
        totals_of(stats.take(n)).errors <= totals_of(stats).errors,
    decreases stats.len(),
{
    if n == stats.len() {
        assert(stats.take(n) =~= stats);
    } else {
        assert(stats.drop_last().take(n) =~= stats.take(n));
        lemma_totals_grow(stats.drop_last(), n);
    }
}

impl Totals {
    /// Whether the counts of `stats` can be added up: no total goes beyond 64
    /// bits.
    pub fn can_add_up(stats: &Vec<WorkerStats>) -> (yes: bool)
        ensures
            yes == totals_of(stats@).fits(),
    {
        let mut requests: u64 = 0;
        let mut sent: u64 = 0;
        let mut received: u64 = 0;
        let mut errors: u64 = 0;
        let mut i: usize = 0;
        while i < stats.len()
            invariant
                i <= stats.len(),
                requests == totals_of(stats@.take(i as int)).requests,
                sent == totals_of(stats@.take(i as int)).bytes_sent,
                received == totals_of(stats@.take(i as int)).bytes_received,
                errors == totals_of(stats@.take(i as int)).errors,
            decreases stats.len() - i,
        {
            proof {
                lemma_totals_grow(stats@, i + 1);
                assert(stats@.take(i + 1).drop_last() =~= stats@.take(i as int));
            }
            let worker = &stats[i];
            let next = (
                requests.checked_add(worker.requests),
                sent.checked_add(worker.bytes_sent),
                received.checked_add(worker.bytes_received),
                errors.checked_add(worker.errors),
            );
            match next {
                (Some(r), Some(s), Some(v), Some(e)) => {
                    requests = r;
                    sent = s;
                    received = v;
                    errors = e;
                },
                _ => {
                    return false;
                },
            }
            i = i + 1;
        }
        assert(stats@.take(stats.len() as int) =~= stats@);
        true
    }

    /// Adds up what the workers counted and puts their latencies in one
    /// list, worker after worker.
    pub fn from_stats(stats: Vec<WorkerStats>) -> (totals: Totals)
        requires
            totals_of(stats@).fits(),
        ensures
            totals@ == totals_of(stats@),
    {
        let mut totals = Totals {
            total_requests: 0,
            bytes_sent: 0,
            bytes_received: 0,
            total_errors: 0,
            latencies: Vec::new(),
        };
        let ghost all = stats@;
        for worker in it: stats
            invariant
                it.seq() == all,
                totals_of(all).fits(),
                totals@ == totals_of(all.take(it.index() as int)),
        {
            let ghost done = it.index() as int;
            proof {
                lemma_totals_grow(all, done + 1);
                assert(all.take(done + 1).drop_last() =~= all.take(done));
            }
            let mut worker = worker;
            totals.total_requests = totals.total_requests + worker.requests;
            totals.bytes_sent = totals.bytes_sent + worker.bytes_sent;
            totals.bytes_received = totals.bytes_received + worker.bytes_received;
            totals.total_errors = totals.total_errors + worker.errors;
            totals.latencies.append(&mut worker.latencies);
        }
        assert(all.take(all.len() as int) =~= all);
        totals
    }
}

/// The text of `text` cut to `max` bytes: `text` itself if it is no longer,
/// and else its first `max - 3` bytes followed by three dots.
pub open spec fn truncated(text: &str, max: usize) -> Seq<char> {
    if text.spec_bytes().len() <= max {
        text@
    } else {
        decode_utf8(text.spec_bytes().subrange(0, max - 3)) + "..."@
    }
}

/// Cuts `text` to `max` bytes, the three dots that mark the cut included. A
/// text that has to be cut needs room for the dots, and the cut may not go
/// through a character.
pub fn truncate(text: &str, max: usize) -> (short: String)
    requires
        text.spec_bytes().len() > max ==> max >= 3 && is_char_boundary(
            text.spec_bytes(),
            max - 3,
        ),
    ensures
        short@ == truncated(text, max),
{
    if text.as_bytes().len() <= max {
        String::from_str(text)
    } else {
        let (head, _) = text.split_at(max - 3);
        proof {
            vstd::utf8::encode_utf8_decode_utf8(head@);
        }
        String::from_str(head).concat("...")
    }
}

/// A number of bytes in words: whole mebibytes from one mebibyte on, whole
/// kibibytes from one kibibyte on, and bytes below that.
pub open spec fn bytes_text(bytes: usize) -> Seq<char> {
    if bytes >= 1024 * 1024 {
        decimal((bytes as nat) / (1024 * 1024)) + "MB"@
    } else if bytes >= 1024 {
        decimal((bytes as nat) / 1024) + "KB"@
    } else {
        decimal(bytes as nat) + "B"@
    }
}

/// Writes a number of bytes as `MB`, `KB` or `B`, rounded down to a whole
/// number of the unit.
pub fn format_bytes(bytes: usize) -> (text: String)
    ensures
        text@ == bytes_text(bytes),
{
    if bytes >= 1024 * 1024 {
        decimal_string((bytes / (1024 * 1024)) as u64).concat("MB")
    } else if bytes >= 1024 {
        decimal_string((bytes / 1024) as u64).concat("KB")
    } else {
        decimal_string(bytes as u64).concat("B")
    }
}

} // verus!
