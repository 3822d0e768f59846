//! What the shell writes to its diagnostic stream about the one update
//! check of a production build.
//!
//! The check runs in the background and nothing waits for it. Its outcome
//! is seen in the log and nowhere else: it is no event of the launcher, so
//! no outcome of it, and no failure of the network, can change the state of
//! startup.

use vstd::prelude::*;
use vstd::string::*;

verus! {

/// How the update check ended.
#[derive(Debug)]
pub enum UpdateOutcome {
    /// The update service knows no newer release.
    UpToDate,
    /// The update service offers a newer release.
    Available {
        /// The version that is offered.
        version: String,
        /// The version that is running.
        current_version: String,
    },
    /// The update service could not be asked, or did not answer as it
    /// should.
    Failed {
        /// What went wrong, in the words of whoever reported it.
        reason: String,
    },
}

/// The line that announces a newer release: it names the version that is
/// offered, then the version that is running.
pub open spec fn available_text(version: Seq<char>, current_version: Seq<char>) -> Seq<char> {
    "发现新版本: "@ + version + " (当前: "@ + current_version + ")"@
}

/// The line that reports a failed update check, ending in the reason.
pub open spec fn failure_text(reason: Seq<char>) -> Seq<char> {
    "更新检查失败: "@ + reason
}

/// The line to log for an outcome, if it calls for one.
pub open spec fn log_line_text(outcome: UpdateOutcome) -> Option<Seq<char>> {
    match outcome {
        UpdateOutcome::UpToDate => None,
        UpdateOutcome::Available { version, current_version } => Some(
            available_text(version@, current_version@),
        ),
        UpdateOutcome::Failed { reason } => Some(failure_text(reason@)),
    }
}

/// Whether `needle` stands in `hay` at position `at`.
pub open spec fn occurs_at(needle: Seq<char>, hay: Seq<char>, at: int) -> bool {
    &&& 0 <= at
    &&& at + needle.len() <= hay.len()
    &&& hay.subrange(at, at + needle.len()) == needle
}

/// Whether `needle` stands somewhere in `hay`, character for character.
pub open spec fn occurs_in(needle: Seq<char>, hay: Seq<char>) -> bool {
    exists|at: int| occurs_at(needle, hay, at)
}

/// The line that announces that `version` is offered while
/// `current_version` is running.
pub fn update_available_message(version: &str, current_version: &str) -> (msg: String)
    ensures
        msg@ == available_text(version@, current_version@),
{
    let mut msg = String::from_str("发现新版本: ");
    msg.append(version);
    msg.append(" (当前: ");
    msg.append(current_version);
    msg.append(")");
    msg
}

/// The line that reports that the update check failed for `reason`.
pub fn update_failure_message(reason: &str) -> (msg: String)
    ensures
        msg@ == failure_text(reason@),
{
    let mut msg = String::from_str("更新检查失败: ");
    msg.append(reason);
    msg
}

/// The line to write to the diagnostic stream for `outcome`: none when
/// there is no newer release, the announcement when there is one, and the
/// failure report when the check failed. A failed check is logged and has
/// no other effect.
pub fn update_log_line(outcome: &UpdateOutcome) -> (line: Option<String>)
    ensures
        line is None <==> outcome is UpToDate,
        match line {
            Some(text) => log_line_text(*outcome) == Some(text@),
            None => log_line_text(*outcome) is None,
        },
{
    match outcome {
        UpdateOutcome::UpToDate => None,
        UpdateOutcome::Available { version, current_version } => Some(
            update_available_message(version.as_str(), current_version.as_str()),
        ),
        UpdateOutcome::Failed { reason } => Some(update_failure_message(reason.as_str())),
    }
}

/// The announcement of a newer release holds both version strings as they
/// were given, the offered one before the running one.
pub proof fn lemma_announcement_names_both_versions(
    version: Seq<char>,
    current_version: Seq<char>,
)
    ensures
        occurs_in(version, available_text(version, current_version)),
        occurs_in(current_version, available_text(version, current_version)),
{
    let text = available_text(version, current_version);
    let head = "发现新版本: "@;
    let middle = " (当前: "@;
    let at_version = head.len() as int;
    let at_current = (head.len() + version.len() + middle.len()) as int;
    assert(text.subrange(at_version, at_version + version.len()) =~= version);
    assert(occurs_at(version, text, at_version));
    assert(text.subrange(at_current, at_current + current_version.len()) =~= current_version);
    assert(occurs_at(current_version, text, at_current));
}

/// The report of a failed update check holds the reason as it was given.
pub proof fn lemma_failure_report_names_reason(reason: Seq<char>)
    ensures
        occurs_in(reason, failure_text(reason)),
{
    let text = failure_text(reason);
    let at = "更新检查失败: "@.len() as int;
    assert(text.subrange(at, at + reason.len()) =~= reason);
    assert(occurs_at(reason, text, at));
}

} // verus!
