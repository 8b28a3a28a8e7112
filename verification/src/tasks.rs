//! The task source: each scheduling cycle rebuilds, from the current set
//! of enabled monitors and their resolved domain names, the full list of
//! probe tasks. The list replaces the previous cycle's list wholesale.

use crate::model::MonitorType;
use vstd::prelude::*;

verus! {

/// One unit of probe work, materialized fresh each cycle.
#[derive(Clone, Debug)]
pub enum MonitorTask {
    SslCheck { domain_id: u128, domain_name: String },
    UptimeCheck { domain_id: u128, domain_name: String },
}

/// The target a task runs against.
pub open spec fn spec_task_target(t: MonitorTask) -> u128 {
    match t {
        MonitorTask::SslCheck { domain_id, .. } => domain_id,
        MonitorTask::UptimeCheck { domain_id, .. } => domain_id,
    }
}

impl MonitorTask {
    /// The target to be probed.
    pub fn target(&self) -> (r: u128)
        ensures
            r == spec_task_target(*self),
    {
        match self {
            MonitorTask::SslCheck { domain_id, .. } => *domain_id,
            MonitorTask::UptimeCheck { domain_id, .. } => *domain_id,
        }
    }
}

/// An enabled monitor joined with its domain's display name; the name is
/// `None` when the domain could not be resolved.
#[derive(Clone, Debug)]
pub struct MonitorRow {
    pub domain_id: u128,
    pub monitor_type: MonitorType,
    pub domain_name: Option<String>,
}

/// The task one monitor row yields: SSL and uptime monitors with a
/// resolved name produce a task; unresolved rows and the DNS and
/// security-header kinds are skipped.
pub open spec fn spec_task_of(row: MonitorRow) -> Option<MonitorTask> {
    match row.domain_name {
        None => None,
        Some(name) => match row.monitor_type {
            MonitorType::SslCert => Some(
                MonitorTask::SslCheck { domain_id: row.domain_id, domain_name: name },
            ),
            MonitorType::Uptime => Some(
                MonitorTask::UptimeCheck { domain_id: row.domain_id, domain_name: name },
            ),
            MonitorType::DomainDns => None,
            MonitorType::SecurityHeaders => None,
        },
    }
}

/// The ordered task list a sequence of monitor rows yields.
pub open spec fn spec_task_list(rows: Seq<MonitorRow>) -> Seq<MonitorTask>
    decreases rows.len(),
{
    if rows.len() == 0 {
        Seq::empty()
    } else {
        (match spec_task_of(rows[0]) {
            Some(t) => seq![t],
            None => Seq::empty(),
        }) + spec_task_list(rows.drop_first())
    }
}

/// Build the cycle's task list from the monitor rows, in order, skipping
/// unresolved rows and inactive monitor kinds.
pub fn build_task_list(rows: &Vec<MonitorRow>) -> (r: Vec<MonitorTask>)
    ensures
        r@ == spec_task_list(rows@),
{
    let len = rows.len();
    let mut out: Vec<MonitorTask> = Vec::new();
    let mut i: usize = 0;
    assert(rows@.subrange(0, len as int) =~= rows@);
    while i < len
        invariant
            i <= len,
            len == rows@.len(),
            spec_task_list(rows@) == out@ + spec_task_list(rows@.subrange(i as int, len as int)),
        decreases len - i,
    {
        let row = &rows[i];
        let ghost tail = rows@.subrange(i as int, len as int);
        proof {
            assert(tail.drop_first() =~= rows@.subrange(i + 1, len as int));
            assert(tail[0] == rows@[i as int]);
        }
        match &row.domain_name {
            None => {},
            Some(name) => {
                match row.monitor_type {
                    MonitorType::SslCert => {
                        out.push(
                            MonitorTask::SslCheck {
                                domain_id: row.domain_id,
                                domain_name: name.clone(),
                            },
                        );
                    },
                    MonitorType::Uptime => {
                        out.push(
                            MonitorTask::UptimeCheck {
                                domain_id: row.domain_id,
                                domain_name: name.clone(),
                            },
                        );
                    },
                    MonitorType::DomainDns => {},
                    MonitorType::SecurityHeaders => {},
                }
            },
        }
        assert(spec_task_list(rows@) == out@ + spec_task_list(rows@.subrange(i + 1, len as int)));
        i += 1;
    }
    assert(rows@.subrange(len as int, len as int) =~= Seq::<MonitorRow>::empty());
    assert(out@ =~= spec_task_list(rows@));
    out
}

} // verus!
