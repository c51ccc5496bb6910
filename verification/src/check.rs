//! A health check over a set of archives: what to ask before any request is
//! sent, and the report once every probe has its outcome.
//!
//! The requests themselves, and running the probes side by side, are the
//! caller's part.

use crate::duration::duration_of_secs;
use crate::probe::{Probe, ProbeOutcome, ProbeView, Verdict};
use crate::report::{ArchiveHealthResult, ReportView};
use std::time::Duration;
use vstd::prelude::*;

verus! {

/// The timeout of each request where the caller gives none, in seconds.
pub const DEFAULT_TIMEOUT_SECS: u64 = 10;

/// What the HTTP client of a health check is built with.
#[derive(Debug)]
pub struct ClientSettings {
    /// The time that each single request may take.
    pub timeout: Duration,
    /// The name by which the client introduces itself.
    pub user_agent: String,
}

/// What a health check has to do.
pub enum CheckPlan {
    /// No target was given: the report stands, and nothing is to be sent.
    Finished(ArchiveHealthResult),
    /// One probe for each target, in the order of the targets, all under the
    /// same settings and independent of each other.
    Probe { settings: ClientSettings, probes: Vec<Probe> },
}

/// A plan as plain values.
pub enum PlanView {
    Finished(ReportView),
    Probe { timeout: Duration, user_agent: Seq<char>, probes: Seq<ProbeView> },
}

impl View for CheckPlan {
    type V = PlanView;

    open spec fn view(&self) -> PlanView {
        match self {
            CheckPlan::Finished(report) => PlanView::Finished(report@),
            CheckPlan::Probe { settings, probes } => PlanView::Probe {
                timeout: settings.timeout,
                user_agent: settings.user_agent@,
                probes: probes@.map_values(|probe: Probe| probe@),
            },
        }
    }
}

/// The timeout of each request of a check.
pub open spec fn effective_timeout(timeout: Option<Duration>) -> Duration {
    match timeout {
        Some(given) => given,
        None => duration_of_secs(DEFAULT_TIMEOUT_SECS),
    }
}

/// The verdicts of a sequence of outcomes.
pub open spec fn verdicts_of(outcomes: Seq<ProbeOutcome>) -> Seq<Verdict> {
    outcomes.map_values(|outcome: ProbeOutcome| outcome@)
}

/// The number of targets that have an outcome: each target is paired with
/// the outcome at its own position.
pub open spec fn paired(targets: Seq<Seq<char>>, verdicts: Seq<Verdict>) -> nat {
    if targets.len() < verdicts.len() {
        targets.len()
    } else {
        verdicts.len()
    }
}

/// The targets among the first `n` that were found healthy, in their order.
pub open spec fn healthy_among(targets: Seq<Seq<char>>, verdicts: Seq<Verdict>, n: nat) -> Seq<
    Seq<char>,
>
    recommends
        n <= paired(targets, verdicts),
    decreases n,
{
    if n == 0 {
        Seq::empty()
    } else {
        let earlier = healthy_among(targets, verdicts, (n - 1) as nat);
        match verdicts[n - 1] {
            Verdict::Healthy => earlier.push(targets[n - 1]),
            Verdict::Unhealthy { .. } => earlier,
        }
    }
}

/// The targets among the first `n` that were found unhealthy, each with its
/// reason, in their order.
pub open spec fn unhealthy_among(targets: Seq<Seq<char>>, verdicts: Seq<Verdict>, n: nat) -> Seq<
    (Seq<char>, Seq<char>),
>
    recommends
        n <= paired(targets, verdicts),
    decreases n,
{
    if n == 0 {
        Seq::empty()
    } else {
        let earlier = unhealthy_among(targets, verdicts, (n - 1) as nat);
        match verdicts[n - 1] {
            Verdict::Healthy => earlier,
            Verdict::Unhealthy { reason } => earlier.push((targets[n - 1], reason)),
        }
    }
}

/// The report on `targets`, given the verdict on each.
pub open spec fn report_of(targets: Seq<Seq<char>>, verdicts: Seq<Verdict>) -> ReportView {
    ReportView::of(
        healthy_among(targets, verdicts, paired(targets, verdicts)),
        unhealthy_among(targets, verdicts, paired(targets, verdicts)),
    )
}

/// What a check of `targets` has to do: nothing where there is no target,
/// else one fresh probe for each target, in order.
pub open spec fn plan_of(targets: Seq<Seq<char>>, timeout: Option<Duration>) -> PlanView {
    if targets.len() == 0 {
        PlanView::Finished(ReportView::of(Seq::empty(), Seq::empty()))
    } else {
        PlanView::Probe {
            timeout: effective_timeout(timeout),
            user_agent: "stellar-k8s-operator/0.1.0"@,
            probes: targets.map_values(|target: Seq<char>| ProbeView::start(target)),
        }
    }
}

/// Decides what a check of `urls` has to do. With no target the empty report
/// is the result and no request is planned; otherwise each target gets a
/// fresh probe, and each request the given timeout, or ten seconds.
pub fn plan_check(urls: &[String], timeout: Option<Duration>) -> (plan: CheckPlan)
    ensures
        plan@ == plan_of(urls.deep_view(), timeout),
{
    if urls.len() == 0 {
        let report = ArchiveHealthResult::new(Vec::new(), Vec::new());
        assert(report.healthy_urls.deep_view() =~= Seq::empty());
        assert(report.unhealthy_urls.deep_view() =~= Seq::empty());
        return CheckPlan::Finished(report);
    }
    let settings = ClientSettings {
        timeout: timeout.unwrap_or(Duration::from_secs(DEFAULT_TIMEOUT_SECS)),
        user_agent: "stellar-k8s-operator/0.1.0".to_owned(),
    };
    let mut probes: Vec<Probe> = Vec::new();
    let mut i: usize = 0;
    while i < urls.len()
        invariant
            i <= urls.len(),
            probes@.len() == i,
            forall|k: int| 0 <= k < i ==> (#[trigger] probes@[k])@ == ProbeView::start(urls@[k]@),
        decreases urls.len() - i,
    {
        probes.push(Probe::new(urls[i].as_str()));
        i += 1;
    }
    assert(probes@.map_values(|probe: Probe| probe@) =~= urls.deep_view().map_values(
        |target: Seq<char>| ProbeView::start(target),
    ));
    CheckPlan::Probe { settings, probes }
}

/// The report of a check once every probe is done: `outcomes[i]` is what the
/// probe of `urls[i]` found. Both sequences of the report keep the order of
/// `urls`. A target without an outcome is left out.
pub fn collect_report(urls: &[String], outcomes: &[ProbeOutcome]) -> (report: ArchiveHealthResult)
    ensures
        report@ == report_of(urls.deep_view(), verdicts_of(outcomes@)),
{
    let ghost targets = urls.deep_view();
    let ghost verdicts = verdicts_of(outcomes@);
    let n = if urls.len() < outcomes.len() {
        urls.len()
    } else {
        outcomes.len()
    };
    let mut healthy: Vec<String> = Vec::new();
    let mut unhealthy: Vec<(String, String)> = Vec::new();
    let mut i: usize = 0;
    while i < n
        invariant
            i <= n,
            n == paired(targets, verdicts),
            targets == urls.deep_view(),
            verdicts == verdicts_of(outcomes@),
            healthy.deep_view() == healthy_among(targets, verdicts, i as nat),
            unhealthy.deep_view() == unhealthy_among(targets, verdicts, i as nat),
        decreases n - i,
    {
        let ghost healthy_before = healthy.deep_view();
        let ghost unhealthy_before = unhealthy.deep_view();
        let url = urls[i].clone();
        match &outcomes[i] {
            ProbeOutcome::Healthy => {
                healthy.push(url);
                assert(healthy.deep_view() =~= healthy_before.push(targets[i as int]));
            },
            ProbeOutcome::Unhealthy { reason } => {
                let reason = reason.clone();
                let ghost entry = (targets[i as int], reason@);
                unhealthy.push((url, reason));
                assert(unhealthy.deep_view() =~= unhealthy_before.push(entry));
            },
        }
        i += 1;
    }
    ArchiveHealthResult::new(healthy, unhealthy)
}

/// With no target a check has nothing to ask: its plan is the empty report,
/// in which neither flag is set. With targets, the plan holds one probe for
/// each.
pub proof fn lemma_plan(targets: Seq<Seq<char>>, timeout: Option<Duration>)
    ensures
        targets.len() == 0 ==> plan_of(targets, timeout) == PlanView::Finished(
            ReportView::of(Seq::empty(), Seq::empty()),
        ),
        !ReportView::of(Seq::empty(), Seq::empty()).all_healthy,
        !ReportView::of(Seq::empty(), Seq::empty()).any_healthy,
        targets.len() > 0 ==> plan_of(targets, timeout) is Probe,
        targets.len() > 0 ==> plan_of(targets, timeout)->probes.len() == targets.len(),
{
}

/// Among the first `n` targets, each is in exactly one of the two sequences,
/// once: the sequences have `n` entries together, and their targets taken
/// together are those `n` targets, each as often as it was given.
pub proof fn lemma_each_target_once(targets: Seq<Seq<char>>, verdicts: Seq<Verdict>, n: nat)
    requires
        n <= paired(targets, verdicts),
    ensures
        healthy_among(targets, verdicts, n).len() + unhealthy_among(targets, verdicts, n).len()
            == n,
        healthy_among(targets, verdicts, n).to_multiset().add(
            unhealthy_among(targets, verdicts, n).map_values(
                |entry: (Seq<char>, Seq<char>)| entry.0,
            ).to_multiset(),
        ) =~= targets.take(n as int).to_multiset(),
    decreases n,
{
    broadcast use vstd::seq_lib::group_to_multiset_ensures;

    let first = |entry: (Seq<char>, Seq<char>)| entry.0;
    if n == 0 {
        assert(unhealthy_among(targets, verdicts, 0).map_values(first) =~= Seq::empty());
    } else {
        let m = (n - 1) as nat;
        lemma_each_target_once(targets, verdicts, m);
        let target = targets[n - 1];
        assert(targets.take(n as int) =~= targets.take(m as int).push(target));
        match verdicts[n - 1] {
            Verdict::Healthy => {},
            Verdict::Unhealthy { reason } => {
                let earlier = unhealthy_among(targets, verdicts, m);
                assert(earlier.push((target, reason)).map_values(first) =~= earlier.map_values(
                    first,
                ).push(target));
            },
        }
    }
}

/// Where every target has its verdict, the report accounts for every target
/// exactly once: its two sequences have as many entries as there are
/// targets, and their targets taken together are the targets given.
pub proof fn lemma_report_covers_targets(targets: Seq<Seq<char>>, verdicts: Seq<Verdict>)
    requires
        verdicts.len() == targets.len(),
    ensures
        report_of(targets, verdicts).wf(),
        report_of(targets, verdicts).healthy.len() + report_of(targets, verdicts).unhealthy.len()
            == targets.len(),
        report_of(targets, verdicts).healthy.to_multiset().add(
            report_of(targets, verdicts).unhealthy.map_values(
                |entry: (Seq<char>, Seq<char>)| entry.0,
            ).to_multiset(),
        ) =~= targets.to_multiset(),
{
    lemma_each_target_once(targets, verdicts, targets.len());
    assert(targets.take(targets.len() as int) =~= targets);
}

/// What was decided on the first `i` targets stays as it is when more
/// targets follow: the sequences over `i` targets are the beginnings of the
/// sequences over `n`.
pub proof fn lemma_among_prefix(targets: Seq<Seq<char>>, verdicts: Seq<Verdict>, i: nat, n: nat)
    requires
        i <= n,
    ensures
        healthy_among(targets, verdicts, i).is_prefix_of(healthy_among(targets, verdicts, n)),
        unhealthy_among(targets, verdicts, i).is_prefix_of(unhealthy_among(targets, verdicts, n)),
    decreases n,
{
    if i < n {
        lemma_among_prefix(targets, verdicts, i, (n - 1) as nat);
    }
}

/// The report keeps the order of the targets. The target at position `i`
/// stands in its sequence right behind the targets of that sequence that
/// were given before it, an unhealthy one with the reason of its own probe.
pub proof fn lemma_report_keeps_order(targets: Seq<Seq<char>>, verdicts: Seq<Verdict>, i: nat)
    requires
        i < paired(targets, verdicts),
    ensures
        verdicts[i as int] is Healthy ==> {
            let at = healthy_among(targets, verdicts, i).len() as int;
            &&& at < report_of(targets, verdicts).healthy.len()
            &&& report_of(targets, verdicts).healthy[at] == targets[i as int]
        },
        verdicts[i as int] is Unhealthy ==> {
            let at = unhealthy_among(targets, verdicts, i).len() as int;
            &&& at < report_of(targets, verdicts).unhealthy.len()
            &&& report_of(targets, verdicts).unhealthy[at] == (
                targets[i as int],
                verdicts[i as int]->reason,
            )
        },
{
    let n = paired(targets, verdicts);
    lemma_among_prefix(targets, verdicts, i + 1, n);
    let healthy = healthy_among(targets, verdicts, i + 1);
    let unhealthy = unhealthy_among(targets, verdicts, i + 1);
    if verdicts[i as int] is Healthy {
        assert(healthy.last() == targets[i as int]);
    } else {
        assert(unhealthy.last() == (targets[i as int], verdicts[i as int]->reason));
    }
}

/// Of two targets in the same sequence of the report, the one given first
/// stands first.
pub proof fn lemma_positions_increase(
    targets: Seq<Seq<char>>,
    verdicts: Seq<Verdict>,
    i: nat,
    j: nat,
)
    requires
        i < j,
    ensures
        verdicts[i as int] is Healthy ==> healthy_among(targets, verdicts, i).len()
            < healthy_among(targets, verdicts, j).len(),
        verdicts[i as int] is Unhealthy ==> unhealthy_among(targets, verdicts, i).len()
            < unhealthy_among(targets, verdicts, j).len(),
{
    lemma_among_prefix(targets, verdicts, i + 1, j);
}

} // verus!
