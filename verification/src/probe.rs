//! The probe of one archive: a metadata check, then a check of the archive's
//! root where the first did not succeed.
//!
//! The probe itself sends nothing. It says which URL to ask next and takes
//! what came back; the caller sends the requests, each under its own timeout.

use crate::status::{is_success_code, status_text, HttpStatus};
use vstd::prelude::*;
use vstd::string::*;

verus! {

/// What one probe found.
#[derive(Clone, Debug, PartialEq, Eq)]
pub enum ProbeOutcome {
    Healthy,
    /// `reason` is shown to operators as it stands.
    Unhealthy { reason: String },
}

/// A probe outcome with its reason as plain text.
pub enum Verdict {
    Healthy,
    Unhealthy { reason: Seq<char> },
}

impl View for ProbeOutcome {
    type V = Verdict;

    open spec fn view(&self) -> Verdict {
        match self {
            ProbeOutcome::Healthy => Verdict::Healthy,
            ProbeOutcome::Unhealthy { reason } => Verdict::Unhealthy { reason: reason@ },
        }
    }
}

/// What a single existence check came to.
#[derive(Clone, Debug, PartialEq, Eq)]
pub enum HeadOutcome {
    /// The server answered with this status.
    Status(HttpStatus),
    /// No answer: name resolution, connection or timeout failed.
    Failed { details: String },
}

/// A check result as plain values.
pub enum HeadView {
    Status(u16),
    Failed { details: Seq<char> },
}

impl View for HeadOutcome {
    type V = HeadView;

    open spec fn view(&self) -> HeadView {
        match self {
            HeadOutcome::Status(status) => HeadView::Status(status@),
            HeadOutcome::Failed { details } => HeadView::Failed { details: details@ },
        }
    }
}

impl HeadView {
    /// Whether the server answered with a status of the 2xx class.
    pub open spec fn is_success(self) -> bool {
        self matches HeadView::Status(code) && is_success_code(code)
    }
}

/// Which of its two checks a probe is waiting for.
#[derive(Clone, Copy, Debug, PartialEq, Eq)]
pub enum ProbeStage {
    Metadata,
    Root,
}

/// A probe that waits for the answer to one check.
#[derive(Clone, Debug)]
pub struct Probe {
    base: String,
    stage: ProbeStage,
}

/// The state of a waiting probe as plain values.
pub struct ProbeView {
    /// The target without its trailing separator.
    pub base: Seq<char>,
    pub stage: ProbeStage,
}

/// Where a probe stands after an answer.
pub enum ProbeStep {
    /// One more check is due.
    Continue(Probe),
    Done(ProbeOutcome),
}

/// A step as plain values.
pub enum StepView {
    Continue(ProbeView),
    Done(Verdict),
}

impl View for Probe {
    type V = ProbeView;

    closed spec fn view(&self) -> ProbeView {
        ProbeView { base: self.base@, stage: self.stage }
    }
}

impl View for ProbeStep {
    type V = StepView;

    open spec fn view(&self) -> StepView {
        match self {
            ProbeStep::Continue(probe) => StepView::Continue(probe@),
            ProbeStep::Done(outcome) => StepView::Done(outcome@),
        }
    }
}

/// The target with one trailing `/` taken off, if it ends in one.
pub open spec fn normalized(target: Seq<char>) -> Seq<char> {
    if target.len() > 0 && target.last() == '/' {
        target.drop_last()
    } else {
        target
    }
}

/// The URL of an archive's metadata file.
pub open spec fn metadata_url(base: Seq<char>) -> Seq<char> {
    base + "/.well-known/stellar-history.json"@
}

/// The reason given for an archive whose root answered with a status outside
/// the 2xx class, where `status` is how that status reads.
pub open spec fn status_reason(status: Seq<char>) -> Seq<char> {
    "Archive returned HTTP "@ + status
}

/// The reason given for an archive whose root did not answer.
pub open spec fn transport_reason(details: Seq<char>) -> Seq<char> {
    "Connection failed: "@ + details
}

/// The verdict that the check of the root decides.
pub open spec fn root_verdict(root: HeadView) -> Verdict {
    match root {
        HeadView::Status(code) => if is_success_code(code) {
            Verdict::Healthy
        } else {
            Verdict::Unhealthy { reason: status_reason(status_text(code)) }
        },
        HeadView::Failed { details } => Verdict::Unhealthy { reason: transport_reason(details) },
    }
}

/// The verdict of a whole probe, given what each of its checks comes to: a
/// successful metadata check settles it, and nothing else about the metadata
/// check counts.
pub open spec fn probe_verdict(metadata: HeadView, root: HeadView) -> Verdict {
    if metadata.is_success() {
        Verdict::Healthy
    } else {
        root_verdict(root)
    }
}

impl ProbeView {
    /// The probe of `target` before any answer.
    pub open spec fn start(target: Seq<char>) -> ProbeView {
        ProbeView { base: normalized(target), stage: ProbeStage::Metadata }
    }

    /// The URL of the check that the probe waits for.
    pub open spec fn url(self) -> Seq<char> {
        match self.stage {
            ProbeStage::Metadata => metadata_url(self.base),
            ProbeStage::Root => self.base,
        }
    }

    /// The probe after `response` to the check it waited for.
    pub open spec fn step(self, response: HeadView) -> StepView {
        match self.stage {
            ProbeStage::Metadata => if response.is_success() {
                StepView::Done(Verdict::Healthy)
            } else {
                StepView::Continue(ProbeView { base: self.base, stage: ProbeStage::Root })
            },
            ProbeStage::Root => StepView::Done(root_verdict(response)),
        }
    }
}

/// Takes one trailing `/` off a target. Nothing else about the target is
/// looked at, and a second trailing `/` stays.
pub fn normalize_target(target: &str) -> (base: String)
    ensures
        base@ == normalized(target@),
{
    let n = target.unicode_len();
    if n > 0 && target.get_char(n - 1) == '/' {
        target.substring_char(0, n - 1).to_owned()
    } else {
        target.to_owned()
    }
}

/// The outcome for an archive whose root answered with a status outside the
/// 2xx class. `status` is the status as it reads, number first.
pub fn status_failure(status: &str) -> (outcome: ProbeOutcome)
    ensures
        outcome@ == (Verdict::Unhealthy { reason: status_reason(status@) }),
{
    ProbeOutcome::Unhealthy { reason: "Archive returned HTTP ".to_owned().concat(status) }
}

/// The outcome for an archive whose root did not answer. `details` says what
/// went wrong on the way.
pub fn transport_failure(details: &str) -> (outcome: ProbeOutcome)
    ensures
        outcome@ == (Verdict::Unhealthy { reason: transport_reason(details@) }),
{
    ProbeOutcome::Unhealthy { reason: "Connection failed: ".to_owned().concat(details) }
}

/// The outcome that the check of the root decides.
pub fn root_outcome(root: HeadOutcome) -> (outcome: ProbeOutcome)
    ensures
        outcome@ == root_verdict(root@),
{
    match root {
        HeadOutcome::Status(status) => {
            if status.is_success() {
                ProbeOutcome::Healthy
            } else {
                status_failure(status.to_text().as_str())
            }
        },
        HeadOutcome::Failed { details } => transport_failure(details.as_str()),
    }
}

impl Probe {
    /// A probe of `target`, waiting for its metadata check.
    pub fn new(target: &str) -> (probe: Probe)
        ensures
            probe@ == ProbeView::start(target@),
    {
        Probe { base: normalize_target(target), stage: ProbeStage::Metadata }
    }

    /// The URL to send the next existence check to.
    pub fn request_url(&self) -> (url: String)
        ensures
            url@ == self@.url(),
    {
        match self.stage {
            ProbeStage::Metadata => self.base.clone().concat("/.well-known/stellar-history.json"),
            ProbeStage::Root => self.base.clone(),
        }
    }

    /// Takes the answer that the probe waited for. At the metadata stage
    /// only a 2xx status ends the probe; after anything else the root is
    /// asked, and its answer decides.
    pub fn on_response(self, response: HeadOutcome) -> (step: ProbeStep)
        ensures
            step@ == self@.step(response@),
    {
        match self.stage {
            ProbeStage::Metadata => {
                let settled = match &response {
                    HeadOutcome::Status(status) => status.is_success(),
                    HeadOutcome::Failed { .. } => false,
                };
                if settled {
                    ProbeStep::Done(ProbeOutcome::Healthy)
                } else {
                    ProbeStep::Continue(Probe { base: self.base, stage: ProbeStage::Root })
                }
            },
            ProbeStage::Root => ProbeStep::Done(root_outcome(response)),
        }
    }
}

/// A probe takes at most two answers. A successful metadata check ends it
/// with a healthy verdict and the root is never asked. Any other metadata
/// answer leads to a check of the bare target, and that check's answer alone
/// decides the verdict.
pub proof fn lemma_probe_two_steps(target: Seq<char>, metadata: HeadView, root: HeadView)
    ensures
        ProbeView::start(target).url() == metadata_url(normalized(target)),
        match ProbeView::start(target).step(metadata) {
            StepView::Done(verdict) => metadata.is_success() && verdict == Verdict::Healthy,
            StepView::Continue(next) => {
                &&& !metadata.is_success()
                &&& next.url() == normalized(target)
                &&& next.step(root) == StepView::Done(probe_verdict(metadata, root))
            },
        },
{
}

/// No connection failure reads like a status failure: the two reasons differ
/// whatever the details and whatever the status.
pub proof fn lemma_reasons_differ(details: Seq<char>, status: Seq<char>)
    ensures
        transport_reason(details) != status_reason(status),
{
    reveal_strlit("Connection failed: ");
    reveal_strlit("Archive returned HTTP ");
    assert(transport_reason(details)[0] == 'C');
    assert(status_reason(status)[0] == 'A');
}

} // verus!
