//! The report of one health check: which archives passed, which did not and
//! why, and the lines that describe it to an operator.

use crate::text::{decimal, format_decimal};
use vstd::prelude::*;
use vstd::string::*;

verus! {

/// Result of checking a set of history archives.
#[derive(Debug, Clone)]
pub struct ArchiveHealthResult {
    /// Targets that passed, in the order in which they were given.
    pub healthy_urls: Vec<String>,
    /// Targets that failed, each with its reason, in the order in which they
    /// were given.
    pub unhealthy_urls: Vec<(String, String)>,
    /// No target failed and at least one passed.
    pub all_healthy: bool,
    /// At least one target passed.
    pub any_healthy: bool,
}

/// A report as plain values.
pub struct ReportView {
    pub healthy: Seq<Seq<char>>,
    pub unhealthy: Seq<(Seq<char>, Seq<char>)>,
    pub all_healthy: bool,
    pub any_healthy: bool,
}

impl View for ArchiveHealthResult {
    type V = ReportView;

    open spec fn view(&self) -> ReportView {
        ReportView {
            healthy: self.healthy_urls.deep_view(),
            unhealthy: self.unhealthy_urls.deep_view(),
            all_healthy: self.all_healthy,
            any_healthy: self.any_healthy,
        }
    }
}

impl ReportView {
    /// The report over the two given sequences.
    pub open spec fn of(
        healthy: Seq<Seq<char>>,
        unhealthy: Seq<(Seq<char>, Seq<char>)>,
    ) -> ReportView {
        ReportView {
            healthy,
            unhealthy,
            all_healthy: unhealthy.len() == 0 && healthy.len() > 0,
            any_healthy: healthy.len() > 0,
        }
    }

    /// The two flags say what the two sequences show.
    pub open spec fn wf(self) -> bool {
        &&& self.all_healthy == (self.unhealthy.len() == 0 && self.healthy.len() > 0)
        &&& self.any_healthy == (self.healthy.len() > 0)
    }

    /// The one-line status of the report.
    pub open spec fn summary(self) -> Seq<char> {
        if self.healthy.len() == 0 && self.unhealthy.len() == 0 {
            "No archives configured"@
        } else if self.all_healthy {
            "All "@ + decimal(self.healthy.len()) + " archive(s) healthy"@
        } else if self.any_healthy {
            decimal(self.healthy.len()) + " healthy, "@ + decimal(self.unhealthy.len())
                + " unhealthy archive(s)"@
        } else {
            "All "@ + decimal(self.unhealthy.len()) + " archive(s) unhealthy"@
        }
    }

    /// The lines of all failed targets, joined by line feeds.
    pub open spec fn error_details(self) -> Seq<char> {
        detail_lines(self.unhealthy)
    }
}

/// The line that reports one failed target.
pub open spec fn detail_line(entry: (Seq<char>, Seq<char>)) -> Seq<char> {
    "  - "@ + entry.0 + ": "@ + entry.1
}

/// The lines of `entries` in order, a line feed between each two and none at
/// either end.
pub open spec fn detail_lines(entries: Seq<(Seq<char>, Seq<char>)>) -> Seq<char>
    decreases entries.len(),
{
    if entries.len() == 0 {
        Seq::empty()
    } else if entries.len() == 1 {
        detail_line(entries[0])
    } else {
        detail_lines(entries.drop_last()) + seq!['\n'] + detail_line(entries.last())
    }
}

impl ArchiveHealthResult {
    /// The report over the given outcomes.
    pub fn new(healthy: Vec<String>, unhealthy: Vec<(String, String)>) -> (report: Self)
        ensures
            report.healthy_urls == healthy,
            report.unhealthy_urls == unhealthy,
            report@ == ReportView::of(healthy.deep_view(), unhealthy.deep_view()),
            report@.wf(),
            report.all_healthy ==> report.any_healthy,
    {
        let all_healthy = unhealthy.is_empty() && !healthy.is_empty();
        let any_healthy = !healthy.is_empty();
        ArchiveHealthResult {
            healthy_urls: healthy,
            unhealthy_urls: unhealthy,
            all_healthy,
            any_healthy,
        }
    }

    /// One line on the state of the archives, for logs.
    pub fn summary(&self) -> (line: String)
        ensures
            line@ == self@.summary(),
    {
        if self.healthy_urls.is_empty() && self.unhealthy_urls.is_empty() {
            "No archives configured".to_owned()
        } else if self.all_healthy {
            let count = format_decimal(self.healthy_urls.len());
            "All ".to_owned().concat(count.as_str()).concat(" archive(s) healthy")
        } else if self.any_healthy {
            let healthy = format_decimal(self.healthy_urls.len());
            let unhealthy = format_decimal(self.unhealthy_urls.len());
            healthy.concat(" healthy, ").concat(unhealthy.as_str()).concat(
                " unhealthy archive(s)",
            )
        } else {
            let count = format_decimal(self.unhealthy_urls.len());
            "All ".to_owned().concat(count.as_str()).concat(" archive(s) unhealthy")
        }
    }

    /// One line for each failed target with its reason, in order.
    pub fn error_details(&self) -> (text: String)
        ensures
            text@ == self@.error_details(),
    {
        let ghost entries = self.unhealthy_urls.deep_view();
        let mut text = String::new();
        let mut i: usize = 0;
        while i < self.unhealthy_urls.len()
            invariant
                i <= self.unhealthy_urls.len(),
                entries == self.unhealthy_urls.deep_view(),
                text@ == detail_lines(entries.take(i as int)),
            decreases self.unhealthy_urls.len() - i,
        {
            if i > 0 {
                text.append("\n");
            }
            let entry = &self.unhealthy_urls[i];
            text.append("  - ");
            text.append(entry.0.as_str());
            text.append(": ");
            text.append(entry.1.as_str());
            proof {
                reveal_strlit("\n");
                let before = entries.take(i as int);
                let after = entries.take(i + 1);
                assert(after.drop_last() =~= before);
                assert(text@ =~= detail_lines(after));
            }
            i += 1;
        }
        assert(entries.take(i as int) =~= entries);
        text
    }
}

/// The report over any two sequences is well formed.
pub proof fn lemma_of_is_wf(healthy: Seq<Seq<char>>, unhealthy: Seq<(Seq<char>, Seq<char>)>)
    ensures
        ReportView::of(healthy, unhealthy).wf(),
        ReportView::of(healthy, unhealthy).healthy == healthy,
        ReportView::of(healthy, unhealthy).unhealthy == unhealthy,
{
}

/// In a well-formed report "all healthy" implies "any healthy", and with no
/// archive at all neither holds.
pub proof fn lemma_flags(report: ReportView)
    requires
        report.wf(),
    ensures
        report.all_healthy ==> report.any_healthy,
        report.healthy.len() == 0 && report.unhealthy.len() == 0 ==> !report.all_healthy
            && !report.any_healthy,
        report.healthy.len() == 0 && report.unhealthy.len() > 0 ==> !report.all_healthy
            && !report.any_healthy,
{
}

/// The summary of a well-formed report takes one of four forms, by the
/// numbers of passed and failed targets alone.
pub proof fn lemma_summary_forms(report: ReportView)
    requires
        report.wf(),
    ensures
        report.healthy.len() == 0 && report.unhealthy.len() == 0 ==> report.summary()
            == "No archives configured"@,
        report.healthy.len() > 0 && report.unhealthy.len() == 0 ==> report.summary() == "All "@
            + decimal(report.healthy.len()) + " archive(s) healthy"@,
        report.healthy.len() > 0 && report.unhealthy.len() > 0 ==> report.summary() == decimal(
            report.healthy.len(),
        ) + " healthy, "@ + decimal(report.unhealthy.len()) + " unhealthy archive(s)"@,
        report.healthy.len() == 0 && report.unhealthy.len() > 0 ==> report.summary() == "All "@
            + decimal(report.unhealthy.len()) + " archive(s) unhealthy"@,
{
}

} // verus!
