//! The aggregator: compacts raw uptime observations into per-period
//! statistics, written through an idempotent upsert keyed by
//! `(target, period start, period type)`.
//!
//! The uptime share is held in hundredths of a percent and the average
//! response time in whole milliseconds, both rounded toward zero.

use crate::model::AggregatePeriod;
use crate::time::spec_hour_of;
use crate::time::spec_weekday_of;
use vstd::prelude::*;

verus! {

/// One raw uptime observation, as the aggregator reads it.
#[derive(Clone, Copy, Debug)]
pub struct Observation {
    pub checked_at: i64,
    pub is_up: bool,
    pub response_time_ms: u32,
}

/// One aggregate row.
#[derive(Clone, Copy, Debug, PartialEq, Eq, Structural)]
pub struct AggregateRow {
    pub domain_id: u128,
    pub period_start: i64,
    pub period_end: i64,
    pub period_type: AggregatePeriod,
    pub total_checks: u64,
    pub successful_checks: u64,
    pub uptime_percentage_hundredths: u64,
    pub avg_response_time_ms: u64,
}

/// Whether an observation falls in the half-open window.
pub open spec fn spec_in_window(o: Observation, start: int, end: int) -> bool {
    start <= o.checked_at < end
}

/// Observations in the window.
pub open spec fn spec_total(obs: Seq<Observation>, start: int, end: int) -> int
    decreases obs.len(),
{
    if obs.len() == 0 {
        0
    } else {
        spec_total(obs.drop_last(), start, end) + (if spec_in_window(obs.last(), start, end) {
            1int
        } else {
            0int
        })
    }
}

/// Successful observations in the window.
pub open spec fn spec_successful(obs: Seq<Observation>, start: int, end: int) -> int
    decreases obs.len(),
{
    if obs.len() == 0 {
        0
    } else {
        spec_successful(obs.drop_last(), start, end) + (if spec_in_window(obs.last(), start, end)
            && obs.last().is_up {
            1int
        } else {
            0int
        })
    }
}

/// Sum of response times over successful observations in the window.
pub open spec fn spec_rt_sum(obs: Seq<Observation>, start: int, end: int) -> int
    decreases obs.len(),
{
    if obs.len() == 0 {
        0
    } else {
        spec_rt_sum(obs.drop_last(), start, end) + (if spec_in_window(obs.last(), start, end)
            && obs.last().is_up {
            obs.last().response_time_ms as int
        } else {
            0int
        })
    }
}

/// The uptime share in hundredths of a percent: successful over total,
/// times ten thousand, rounded down; zero when the window is empty.
pub open spec fn spec_percentage_hundredths(successful: int, total: int) -> int {
    if total == 0 {
        0
    } else {
        successful * 10000 / total
    }
}

/// The average response time over successful observations, rounded down;
/// zero when there were none.
pub open spec fn spec_avg_rt(rt_sum: int, successful: int) -> int {
    if successful == 0 {
        0
    } else {
        rt_sum / successful
    }
}

/// Compute the aggregate row for one target and window from the raw
/// observations. The row depends on the observations alone, so
/// recomputing it over unchanged data gives the same row.
pub fn compute_uptime_aggregate(
    domain_id: u128,
    period_start: i64,
    period_end: i64,
    period_type: AggregatePeriod,
    obs: &Vec<Observation>,
) -> (r: AggregateRow)
    ensures
        r.domain_id == domain_id,
        r.period_start == period_start,
        r.period_end == period_end,
        r.period_type == period_type,
        r.total_checks as int == spec_total(obs@, period_start as int, period_end as int),
        r.successful_checks as int == spec_successful(
            obs@,
            period_start as int,
            period_end as int,
        ),
        r.uptime_percentage_hundredths as int == spec_percentage_hundredths(
            spec_successful(obs@, period_start as int, period_end as int),
            spec_total(obs@, period_start as int, period_end as int),
        ),
        r.avg_response_time_ms as int == spec_avg_rt(
            spec_rt_sum(obs@, period_start as int, period_end as int),
            spec_successful(obs@, period_start as int, period_end as int),
        ),
{
    let ghost gs = period_start as int;
    let ghost ge = period_end as int;
    let len = obs.len();
    let mut total: u64 = 0;
    let mut successful: u64 = 0;
    let mut rt_sum: u128 = 0;
    let mut i: usize = 0;
    while i < len
        invariant
            i <= len,
            len == obs@.len(),
            gs == period_start as int,
            ge == period_end as int,
            total as int == spec_total(obs@.subrange(0, i as int), gs, ge),
            successful as int == spec_successful(obs@.subrange(0, i as int), gs, ge),
            rt_sum as int == spec_rt_sum(obs@.subrange(0, i as int), gs, ge),
            total <= i,
            successful <= total,
            rt_sum as int <= (successful as int) * 0xffffffff,
        decreases len - i,
    {
        let o = obs[i];
        let ghost prefix = obs@.subrange(0, i as int);
        let ghost prefix1 = obs@.subrange(0, i + 1);
        proof {
            assert(prefix1.drop_last() =~= prefix);
            assert(prefix1.last() == obs@[i as int]);
        }
        if period_start <= o.checked_at && o.checked_at < period_end {
            total = total + 1;
            if o.is_up {
                successful = successful + 1;
                rt_sum = rt_sum + (o.response_time_ms as u128);
            }
        }
        i += 1;
    }
    proof {
        assert(obs@.subrange(0, len as int) =~= obs@);
    }
    let percentage: u64 = if total == 0 {
        0
    } else {
        let p = ((successful as u128) * 10000) / (total as u128);
        assert(p <= 10000) by (nonlinear_arith)
            requires
                successful <= total,
                0 < total,
                p == ((successful as u128) * 10000) as int / (total as u128) as int,
        ;
        p as u64
    };
    let avg: u64 = if successful == 0 {
        0
    } else {
        let a = rt_sum / (successful as u128);
        assert(a <= 0xffffffff) by (nonlinear_arith)
            requires
                0 < successful,
                rt_sum as int <= (successful as int) * 0xffffffff,
                a == rt_sum as int / (successful as u128) as int,
        ;
        a as u64
    };
    AggregateRow {
        domain_id,
        period_start,
        period_end,
        period_type,
        total_checks: total,
        successful_checks: successful,
        uptime_percentage_hundredths: percentage,
        avg_response_time_ms: avg,
    }
}

/// The upsert key of a row.
pub open spec fn spec_key(r: AggregateRow) -> (u128, int, AggregatePeriod) {
    (r.domain_id, r.period_start as int, r.period_type)
}

/// The mapping from keys to rows that a row sequence represents; later
/// rows win, though a well-formed store has distinct keys.
pub open spec fn spec_store_map(rows: Seq<AggregateRow>) -> Map<
    (u128, int, AggregatePeriod),
    AggregateRow,
>
    decreases rows.len(),
{
    if rows.len() == 0 {
        Map::empty()
    } else {
        spec_store_map(rows.drop_last()).insert(spec_key(rows.last()), rows.last())
    }
}

/// Distinct upsert keys.
pub open spec fn distinct_keys(rows: Seq<AggregateRow>) -> bool {
    forall|i: int, j: int|
        0 <= i < j < rows.len() ==> spec_key(rows[i]) != spec_key(rows[j])
}

proof fn lemma_store_map_update(rows: Seq<AggregateRow>, i: int, row: AggregateRow)
    requires
        0 <= i < rows.len(),
        spec_key(rows[i]) == spec_key(row),
        distinct_keys(rows),
    ensures
        spec_store_map(rows.update(i, row)) == spec_store_map(rows).insert(spec_key(row), row),
    decreases rows.len(),
{
    let updated = rows.update(i, row);
    if i == rows.len() - 1 {
        assert(updated.drop_last() =~= rows.drop_last());
        assert(spec_store_map(updated) == spec_store_map(rows.drop_last()).insert(
            spec_key(row),
            row,
        ));
        assert(spec_store_map(rows).insert(spec_key(row), row) =~= spec_store_map(
            rows.drop_last(),
        ).insert(spec_key(row), row));
    } else {
        assert(updated.drop_last() =~= rows.drop_last().update(i, row));
        assert(updated.last() == rows.last());
        lemma_store_map_update(rows.drop_last(), i, row);
        assert(spec_key(rows.last()) != spec_key(row));
        assert(spec_store_map(updated) == spec_store_map(rows.drop_last()).insert(
            spec_key(row),
            row,
        ).insert(spec_key(rows.last()), rows.last()));
        assert(spec_store_map(rows.drop_last()).insert(spec_key(row), row).insert(
            spec_key(rows.last()),
            rows.last(),
        ) =~= spec_store_map(rows.drop_last()).insert(spec_key(rows.last()), rows.last()).insert(
            spec_key(row),
            row,
        ));
    }
}

/// The stored aggregate rows, one per key.
#[derive(Clone, Debug)]
pub struct AggregateStore {
    pub rows: Vec<AggregateRow>,
}

impl AggregateStore {
    /// Well-formedness: one row per key.
    pub open spec fn wf(self) -> bool {
        distinct_keys(self.rows@)
    }

    /// The key-to-row mapping this store holds.
    pub open spec fn view_map(self) -> Map<(u128, int, AggregatePeriod), AggregateRow> {
        spec_store_map(self.rows@)
    }

    /// An empty store.
    pub fn new() -> (r: AggregateStore)
        ensures
            r.wf(),
            r.rows@.len() == 0,
            r.view_map() == Map::<(u128, int, AggregatePeriod), AggregateRow>::empty(),
    {
        AggregateStore { rows: Vec::new() }
    }

    /// Write a row: replace the row with the same key if one exists, else
    /// append. The store afterwards maps the row's key to exactly this
    /// row and every other key to what it held before.
    pub fn upsert(&mut self, row: AggregateRow)
        requires
            old(self).wf(),
        ensures
            final(self).wf(),
            final(self).view_map() == old(self).view_map().insert(spec_key(row), row),
    {
        let len = self.rows.len();
        let ghost orig = self.rows@;
        let mut found = false;
        let mut i: usize = 0;
        while i < len
            invariant_except_break
                i <= len,
                len == self.rows@.len(),
                self.rows@ == orig,
                !found,
                forall|k: int| 0 <= k < i ==> spec_key(orig[k]) != spec_key(row),
            invariant
                distinct_keys(orig),
            ensures
                found ==> distinct_keys(self.rows@) && spec_store_map(self.rows@)
                    == spec_store_map(orig).insert(spec_key(row), row),
                !found ==> self.rows@ == orig && (forall|k: int|
                    0 <= k < orig.len() ==> spec_key(orig[k]) != spec_key(row)),
            decreases len - i,
        {
            let candidate = &self.rows[i];
            if candidate.domain_id == row.domain_id && candidate.period_start == row.period_start
                && candidate.period_type == row.period_type {
                assert(spec_key(orig[i as int]) == spec_key(row));
                found = true;
                self.rows.set(i, row);
                proof {
                    lemma_store_map_update(orig, i as int, row);
                    assert forall|a: int, b: int|
                        0 <= a < b < self.rows@.len() implies spec_key(self.rows@[a]) != spec_key(
                        self.rows@[b],
                    ) by {
                        if a != i && b != i {
                            assert(self.rows@[a] == orig[a] && self.rows@[b] == orig[b]);
                        } else if a == i {
                            assert(spec_key(self.rows@[a]) == spec_key(orig[a]));
                        } else {
                            assert(spec_key(self.rows@[b]) == spec_key(orig[b]));
                        }
                    }
                }
                break ;
            }
            i += 1;
        }
        if !found {
            self.rows.push(row);
            proof {
                let s = self.rows@;
                assert(s.drop_last() =~= orig);
                assert(s.last() == row);
                assert(spec_store_map(s) == spec_store_map(orig).insert(spec_key(row), row));
                assert forall|a: int, b: int| 0 <= a < b < s.len() implies spec_key(s[a])
                    != spec_key(s[b]) by {
                    if b == s.len() - 1 {
                        assert(s[a] == orig[a] && s[b] == row);
                    } else {
                        assert(s[a] == orig[a] && s[b] == orig[b]);
                    }
                }
            }
        }
    }

    /// How many rows the store holds.
    pub fn len(&self) -> (r: usize)
        ensures
            r == self.rows@.len(),
    {
        self.rows.len()
    }
}

/// Upserting the same row twice leaves the store's mapping exactly as
/// upserting it once: recomputing a period over unchanged data is
/// idempotent.
pub proof fn lemma_upsert_idempotent(
    m: Map<(u128, int, AggregatePeriod), AggregateRow>,
    row: AggregateRow,
)
    ensures
        m.insert(spec_key(row), row).insert(spec_key(row), row) == m.insert(spec_key(row), row),
{
    assert(m.insert(spec_key(row), row).insert(spec_key(row), row) =~= m.insert(
        spec_key(row),
        row,
    ));
}

/// One period the aggregator is due to recompute.
#[derive(Clone, Copy, Debug, PartialEq, Eq, Structural)]
pub struct PeriodPlan {
    pub period_type: AggregatePeriod,
    pub period_start: i64,
    pub period_end: i64,
}

/// The periods one aggregator tick recomputes at time `now`: always the
/// last completed hour; the previous day when the day's first hour has
/// begun; and the previous seven days when, additionally, it is Sunday.
pub fn plan_aggregation(now: i64) -> (r: Vec<PeriodPlan>)
    requires
        now >= 0,
    ensures
        ({
            let hour_end = now as int - (now as int) % 3600;
            let day_end = now as int - (now as int) % 86400;
            let daily = spec_hour_of(now as int) == 0;
            let weekly = daily && spec_weekday_of(now as int) == 0;
            &&& r@.len() == 1 + (if daily {
                1int
            } else {
                0int
            }) + (if weekly {
                1int
            } else {
                0int
            })
            &&& r@[0] == (PeriodPlan {
                period_type: AggregatePeriod::Hour,
                period_start: (hour_end - 3600) as i64,
                period_end: hour_end as i64,
            })
            &&& daily ==> r@[1] == (PeriodPlan {
                period_type: AggregatePeriod::Day,
                period_start: (day_end - 86400) as i64,
                period_end: day_end as i64,
            })
            &&& weekly ==> r@[2] == (PeriodPlan {
                period_type: AggregatePeriod::Week,
                period_start: (day_end - 604800) as i64,
                period_end: day_end as i64,
            })
        }),
{
    let mut plans: Vec<PeriodPlan> = Vec::new();
    let hour_end = crate::time::hour_floor(now);
    plans.push(
        PeriodPlan {
            period_type: AggregatePeriod::Hour,
            period_start: hour_end - 3600,
            period_end: hour_end,
        },
    );
    let hour = crate::time::hour_of(now);
    if hour == 0 {
        let day_end = crate::time::day_floor(now);
        plans.push(
            PeriodPlan {
                period_type: AggregatePeriod::Day,
                period_start: day_end - 86400,
                period_end: day_end,
            },
        );
        let weekday = crate::time::weekday_of(now);
        if weekday == 0 {
            plans.push(
                PeriodPlan {
                    period_type: AggregatePeriod::Week,
                    period_start: day_end - 604800,
                    period_end: day_end,
                },
            );
        }
    }
    plans
}

} // verus!
