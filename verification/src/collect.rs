//! The per-host prober's decision logic and the aggregation of its results.
//!
//! Probing a host means opening a connection and running three status
//! queries; that work is I/O and happens outside the library. What each
//! attempt came to is handed back in as a [`ProbeOutcome`], and the
//! [`Collector`] decides what it contributes to the run:
//!
//! - all three queries answered: one [`HostStatus`] row is recorded — the
//!   host is a primary exactly when it reported it is *not* in recovery;
//! - the connection failed: the host is skipped, one diagnostic naming the
//!   host and the error is recorded, and the run goes on (the only
//!   recoverable failure);
//! - a query failed after the connection was up: the whole run aborts with
//!   a fatal diagnostic, as nothing further is trustworthy.
//!
//! Rows are kept in the order the hosts were probed.

use vstd::prelude::*;

use crate::hosts::views_of;
use crate::status::{HostStatus, HostStatusV};

verus! {

/// Mathematical model of a [`ProbeOutcome`].
pub enum OutcomeV {
    ConnectFailed { error: Seq<char> },
    QueryFailed { error: Seq<char> },
    Probed { in_recovery: bool, timeline_id: int, replica_attached: bool },
}

/// What probing one host came to: the connection could not be opened, a
/// status query failed after it was, or all three queries answered. For a
/// probed host, `in_recovery` is what the server reported about being a
/// replication target under active recovery.
pub enum ProbeOutcome {
    ConnectFailed { error: String },
    QueryFailed { error: String },
    Probed { in_recovery: bool, timeline_id: i32, replica_attached: bool },
}

impl View for ProbeOutcome {
    type V = OutcomeV;

    open spec fn view(&self) -> OutcomeV {
        match self {
            ProbeOutcome::ConnectFailed { error } => OutcomeV::ConnectFailed { error: error@ },
            ProbeOutcome::QueryFailed { error } => OutcomeV::QueryFailed { error: error@ },
            ProbeOutcome::Probed { in_recovery, timeline_id, replica_attached } => OutcomeV::Probed {
                in_recovery: *in_recovery,
                timeline_id: *timeline_id as int,
                replica_attached: *replica_attached,
            },
        }
    }
}

/// One probed host and what came of it: one step of the collector's history.
pub struct ProbeRecordV {
    pub name: Seq<char>,
    pub outcome: OutcomeV,
}

/// Whether the record is of a host whose three queries all answered.
pub open spec fn is_probed(r: ProbeRecordV) -> bool {
    r.outcome is Probed
}

/// The row a fully probed host contributes: the host is a primary exactly
/// when it is not in recovery.
pub open spec fn status_of(r: ProbeRecordV) -> HostStatusV {
    match r.outcome {
        OutcomeV::Probed { in_recovery, timeline_id, replica_attached } => HostStatusV {
            name: r.name,
            is_primary: !in_recovery,
            timeline_id: timeline_id,
            replica_attached: replica_attached,
        },
        _ => HostStatusV { name: r.name, is_primary: false, timeline_id: 0, replica_attached: false },
    }
}

/// The one diagnostic recorded for a host whose connection failed.
pub open spec fn connect_failure_chars(name: Seq<char>, error: Seq<char>) -> Seq<char> {
    "Error connecting to host: "@ + name + ": "@ + error
}

/// The fatal diagnostic with which the run aborts when a status query fails.
pub open spec fn query_failure_chars(name: Seq<char>, error: Seq<char>) -> Seq<char> {
    "Error querying host: "@ + name + ": "@ + error
}

/// The report rows a history of probe records yields: one per fully probed
/// host, in probe order.
pub open spec fn collected_rows(records: Seq<ProbeRecordV>) -> Seq<HostStatusV>
    decreases records.len(),
{
    if records.len() == 0 {
        Seq::empty()
    } else {
        let rest = collected_rows(records.drop_last());
        if is_probed(records.last()) {
            rest.push(status_of(records.last()))
        } else {
            rest
        }
    }
}

/// The diagnostics a history of probe records yields: one per host whose
/// connection failed, in probe order.
pub open spec fn collected_diags(records: Seq<ProbeRecordV>) -> Seq<Seq<char>>
    decreases records.len(),
{
    if records.len() == 0 {
        Seq::empty()
    } else {
        let rest = collected_diags(records.drop_last());
        match records.last().outcome {
            OutcomeV::ConnectFailed { error } => rest.push(
                connect_failure_chars(records.last().name, error),
            ),
            _ => rest,
        }
    }
}

/// What the run does next after one host's outcome was recorded: go on to
/// the next host, or abort the whole run with a fatal diagnostic.
pub enum ProbeAction {
    Continue,
    Abort { message: String },
}

/// Accumulates the results of probing the hosts, one at a time and in input
/// order: the report rows of the fully probed hosts and the diagnostics of
/// the skipped ones.
pub struct Collector {
    rows: Vec<HostStatus>,
    diags: Vec<String>,
    records: Ghost<Seq<ProbeRecordV>>,
}

impl Collector {
    /// The history of records observed so far, in order.
    pub closed spec fn records(self) -> Seq<ProbeRecordV> {
        self.records@
    }

    /// The rows collected so far, as their models.
    pub closed spec fn rows_model(self) -> Seq<HostStatusV> {
        self.rows@.map_values(|h: HostStatus| h@)
    }

    /// The diagnostics recorded so far, as character sequences.
    pub closed spec fn diags_model(self) -> Seq<Seq<char>> {
        views_of(self.diags@)
    }

    /// Well-formedness: the rows and diagnostics are exactly what the
    /// observed history yields.
    pub open spec fn wf(self) -> bool {
        &&& self.rows_model() == collected_rows(self.records())
        &&& self.diags_model() == collected_diags(self.records())
    }

    /// A collector that has observed nothing.
    pub fn new() -> (c: Collector)
        ensures
            c.wf(),
            c.records() == Seq::<ProbeRecordV>::empty(),
            c.rows_model() == Seq::<HostStatusV>::empty(),
            c.diags_model() == Seq::<Seq<char>>::empty(),
    {
        let c = Collector { rows: Vec::new(), diags: Vec::new(), records: Ghost(Seq::empty()) };
        proof {
            assert(c.rows_model() =~= Seq::<HostStatusV>::empty());
            assert(c.diags_model() =~= Seq::<Seq<char>>::empty());
        }
        c
    }

    /// Records what probing one host came to, and says whether the run goes
    /// on. A fully probed host contributes its row; a host whose connection
    /// failed contributes one diagnostic naming it and is otherwise skipped;
    /// a failed query contributes nothing and aborts the run.
    pub fn observe(&mut self, name: String, outcome: ProbeOutcome) -> (action: ProbeAction)
        requires
            old(self).wf(),
        ensures
            final(self).wf(),
            final(self).records() == old(self).records().push(
                ProbeRecordV { name: name@, outcome: outcome@ },
            ),
            outcome@ matches OutcomeV::Probed { in_recovery, timeline_id, replica_attached }
                ==> final(self).rows_model() == old(self).rows_model().push(
                HostStatusV {
                    name: name@,
                    is_primary: !in_recovery,
                    timeline_id: timeline_id,
                    replica_attached: replica_attached,
                },
            ) && final(self).diags_model() == old(self).diags_model() && action is Continue,
            outcome@ matches OutcomeV::ConnectFailed { error } ==> final(self).rows_model() == old(
                self,
            ).rows_model() && final(self).diags_model() == old(self).diags_model().push(
                connect_failure_chars(name@, error),
            ) && action is Continue,
            outcome@ matches OutcomeV::QueryFailed { error } ==> final(self).rows_model() == old(
                self,
            ).rows_model() && final(self).diags_model() == old(self).diags_model() && (
            action matches ProbeAction::Abort { message } && message@ == query_failure_chars(
                name@,
                error,
            )),
    {
        let ghost name_v = name@;
        let ghost record = ProbeRecordV { name: name@, outcome: outcome@ };
        self.records = Ghost(self.records@.push(record));
        proof {
            assert(self.records@.drop_last() =~= old(self).records@);
        }
        match outcome {
            ProbeOutcome::Probed { in_recovery, timeline_id, replica_attached } => {
                self.rows.push(
                    HostStatus { name, is_primary: !in_recovery, timeline_id, replica_attached },
                );
                proof {
                    assert(self.rows_model() =~= old(self).rows_model().push(status_of(record)));
                    assert(self.diags_model() =~= old(self).diags_model());
                }
                ProbeAction::Continue
            },
            ProbeOutcome::ConnectFailed { error } => {
                let mut msg = String::from_str("Error connecting to host: ");
                msg.append(name.as_str());
                msg.append(": ");
                msg.append(error.as_str());
                self.diags.push(msg);
                proof {
                    assert(self.rows_model() =~= old(self).rows_model());
                    assert(self.diags_model() =~= old(self).diags_model().push(
                        connect_failure_chars(name_v, error@),
                    ));
                }
                ProbeAction::Continue
            },
            ProbeOutcome::QueryFailed { error } => {
                let mut msg = String::from_str("Error querying host: ");
                msg.append(name.as_str());
                msg.append(": ");
                msg.append(error.as_str());
                proof {
                    assert(self.rows_model() =~= old(self).rows_model());
                    assert(self.diags_model() =~= old(self).diags_model());
                }
                ProbeAction::Abort { message: msg }
            },
        }
    }

    /// The collected rows, in probe order, ready for the reporter.
    pub fn into_rows(self) -> (rows: Vec<HostStatus>)
        ensures
            rows@.map_values(|h: HostStatus| h@) == self.rows_model(),
    {
        self.rows
    }

    /// The diagnostics recorded so far, in probe order.
    pub fn diagnostics(&self) -> (diags: &Vec<String>)
        ensures
            views_of(diags@) == self.diags_model(),
    {
        &self.diags
    }
}

/// The records of the fully probed hosts, in probe order.
pub open spec fn probed_records(records: Seq<ProbeRecordV>) -> Seq<ProbeRecordV> {
    records.filter(|r: ProbeRecordV| is_probed(r))
}

/// The rows of a sequence of records, one per record, in order.
pub open spec fn statuses_of(records: Seq<ProbeRecordV>) -> Seq<HostStatusV> {
    records.map_values(|r: ProbeRecordV| status_of(r))
}

/// Splitting a history anywhere splits its rows and diagnostics at the same
/// place: what one host contributes depends on that host's record alone.
pub proof fn lemma_collected_concat(a: Seq<ProbeRecordV>, b: Seq<ProbeRecordV>)
    ensures
        collected_rows(a + b) =~= collected_rows(a) + collected_rows(b),
        collected_diags(a + b) =~= collected_diags(a) + collected_diags(b),
    decreases b.len(),
{
    if b.len() == 0 {
        assert(a + b =~= a);
        assert(collected_rows(b) =~= Seq::<HostStatusV>::empty());
        assert(collected_diags(b) =~= Seq::<Seq<char>>::empty());
    } else {
        lemma_collected_concat(a, b.drop_last());
        assert((a + b).drop_last() =~= a + b.drop_last());
        assert((a + b).last() == b.last());
    }
}

/// Law: a history of `n` records yields at most `n` rows.
pub proof fn lemma_rows_come_from_records(records: Seq<ProbeRecordV>)
    ensures
        collected_rows(records).len() <= records.len(),
    decreases records.len(),
{
    if records.len() == 0 {
    } else {
        lemma_rows_come_from_records(records.drop_last());
    }
}

/// The index of the record that produced row `i` of the collected rows.
pub open spec fn row_source(records: Seq<ProbeRecordV>, i: int) -> int
    decreases records.len(),
{
    if records.len() == 0 {
        0
    } else if is_probed(records.last()) && i == collected_rows(records.drop_last()).len() {
        records.len() - 1
    } else {
        row_source(records.drop_last(), i)
    }
}

/// Law: the report never invents a host. Every row is the status of the
/// record at [`row_source`], a fully probed host; in particular the row's
/// name is that host's name, so it was present in the input.
pub proof fn lemma_row_source(records: Seq<ProbeRecordV>, i: int)
    requires
        0 <= i < collected_rows(records).len(),
    ensures
        ({
            let j = row_source(records, i);
            &&& 0 <= j < records.len()
            &&& is_probed(records[j])
            &&& collected_rows(records)[i] == status_of(records[j])
            &&& collected_rows(records)[i].name == records[j].name
        }),
    decreases records.len(),
{
    lemma_rows_come_from_records(records);
    if records.len() == 0 {
    } else {
        let rest = records.drop_last();
        if is_probed(records.last()) && i == collected_rows(rest).len() {
            assert(records[records.len() - 1] == records.last());
        } else {
            lemma_row_source(rest, i);
            assert(records[row_source(rest, i)] == rest[row_source(rest, i)]);
            assert(collected_rows(records)[i] == collected_rows(rest)[i]);
        }
    }
}

/// Law: row order is input order. Rows that stand earlier in the report come
/// from hosts that stand earlier in the history: the probe order is kept,
/// never left as completion order.
pub proof fn lemma_row_sources_increasing(records: Seq<ProbeRecordV>, i: int, j: int)
    requires
        0 <= i < j < collected_rows(records).len(),
    ensures
        row_source(records, i) < row_source(records, j),
    decreases records.len(),
{
    lemma_rows_come_from_records(records);
    if records.len() == 0 {
    } else {
        let rest = records.drop_last();
        if is_probed(records.last()) && j == collected_rows(rest).len() {
            lemma_row_source(rest, i);
        } else {
            lemma_row_sources_increasing(rest, i, j);
        }
    }
}

/// Law: the reporter's output holds at most as many rows as hosts were
/// probed, and every row is the status of the probed host recorded at its
/// [`row_source`] — so every row's host name was present in the input, and
/// no row was invented.
pub proof fn lemma_report_rows_from_inputs(c: Collector, i: int)
    requires
        c.wf(),
        0 <= i < c.rows_model().len(),
    ensures
        c.rows_model().len() <= c.records().len(),
        ({
            let j = row_source(c.records(), i);
            &&& 0 <= j < c.records().len()
            &&& is_probed(c.records()[j])
            &&& c.rows_model()[i] == status_of(c.records()[j])
            &&& c.rows_model()[i].name == c.records()[j].name
        }),
{
    lemma_rows_come_from_records(c.records());
    lemma_row_source(c.records(), i);
}

/// Law: collecting is idempotent. Two collectors that observed the same
/// history — the same hosts with the same outcomes, as against an unchanged,
/// stable set of hosts — hold identical rows and identical diagnostics.
pub proof fn lemma_collectors_agree(a: Collector, b: Collector)
    requires
        a.wf(),
        b.wf(),
        a.records() == b.records(),
    ensures
        a.rows_model() == b.rows_model(),
        a.diags_model() == b.diags_model(),
{
}

/// Law: row order is probe order. The rows are exactly the statuses of the
/// fully probed records, kept in the order the hosts were probed: no
/// reordering, whatever each probe came to.
pub proof fn lemma_rows_in_probe_order(records: Seq<ProbeRecordV>)
    ensures
        collected_rows(records) =~= statuses_of(probed_records(records)),
    decreases records.len(),
{
    reveal(Seq::filter);
    if records.len() == 0 {
        assert(collected_rows(records) =~= Seq::<HostStatusV>::empty());
        assert(statuses_of(probed_records(records)) =~= Seq::<HostStatusV>::empty());
    } else {
        let rest = records.drop_last();
        lemma_rows_in_probe_order(rest);
        if is_probed(records.last()) {
            assert(probed_records(records) =~= probed_records(rest).push(records.last()));
            assert(statuses_of(probed_records(rest).push(records.last())) =~= statuses_of(
                probed_records(rest),
            ).push(status_of(records.last())));
        } else {
            assert(probed_records(records) =~= probed_records(rest));
        }
    }
}

/// Law: a host whose connection is refused is isolated. It contributes
/// exactly one diagnostic, naming that host and the error, and no row; every
/// other host's rows and diagnostics are exactly what they would have been
/// had the failing host not been listed at all.
pub proof fn lemma_connect_failure_isolated(records: Seq<ProbeRecordV>, i: int)
    requires
        0 <= i < records.len(),
        records[i].outcome is ConnectFailed,
    ensures
        records[i].outcome matches OutcomeV::ConnectFailed { error } ==> ({
            &&& collected_rows(records) =~= collected_rows(
                records.subrange(0, i) + records.subrange(i + 1, records.len() as int),
            )
            &&& collected_diags(records) =~= collected_diags(records.subrange(0, i)) + seq![
                connect_failure_chars(records[i].name, error),
            ] + collected_diags(records.subrange(i + 1, records.len() as int))
        }),
{
    let len = records.len() as int;
    let before = records.subrange(0, i);
    let mid = seq![records[i]];
    let after = records.subrange(i + 1, len);
    assert(records =~= (before + mid) + after);
    lemma_collected_concat(before + mid, after);
    lemma_collected_concat(before, mid);
    lemma_collected_concat(before, after);
    assert(mid.drop_last() =~= Seq::<ProbeRecordV>::empty());
    assert(collected_rows(Seq::<ProbeRecordV>::empty()) =~= Seq::<HostStatusV>::empty());
    assert(collected_diags(Seq::<ProbeRecordV>::empty()) =~= Seq::<Seq<char>>::empty());
    assert(mid.last() == records[i]);
    assert(collected_rows(mid) =~= Seq::<HostStatusV>::empty());
    assert(collected_diags(mid) =~= seq![
        connect_failure_chars(records[i].name, records[i].outcome->ConnectFailed_error),
    ]);
}

} // verus!
