//! One service's AI generation run as a state machine: plan, let the user
//! approve the plan (or revise it with feedback, or skip the service),
//! generate the files, then validate them against the rules when there
//! are any. Each step takes the state and what just happened, and gives
//! the next state and what to do; the caller does it (asks the model,
//! asks the user, writes files) and reports back.

use vstd::prelude::*;
use vstd::string::*;
use crate::ai::generator::{execute_prompt, execute_prompt_text, plan_prompt, plan_prompt_text};
use crate::ai::orchestrator::{
    feedback_text, normalized_answer, review_choice, review_decision, validation_rejected,
    ReviewDecision,
};
use crate::text::trimmed;

verus! {

/// Told to the model when the service already has code.
pub const PLAN_EXISTING_CODE: &'static str = "\n\nThe service already has the following code. Plan how to refactor and update it instead of generating it from scratch:";

pub const PLAN_PREVIOUS: &'static str = "\n\nThis was the previous plan:\n";

pub const PLAN_FEEDBACK: &'static str = "\n\nRevise it according to the user's feedback:\n";

pub const EXECUTE_EXISTING_CODE: &'static str = "\n\nThe service already has the following code; keep what the plan keeps and change what it changes:";

/// The existing code as told to the model: nothing when there is none.
pub open spec fn existing_code_part(intro: Seq<char>, existing: Seq<char>) -> Seq<char> {
    if existing.len() == 0 {
        Seq::empty()
    } else {
        intro + existing
    }
}

/// The plan prompt of a run: the plain plan prompt, then the existing code,
/// then (when revising) the previous plan and the user's feedback.
pub open spec fn plan_request_text(
    manifest: Seq<char>,
    service: Seq<char>,
    existing: Seq<char>,
    revision: Option<(Seq<char>, Seq<char>)>,
) -> Seq<char> {
    plan_prompt_text(manifest, service) + existing_code_part(PLAN_EXISTING_CODE@, existing) + (
    match revision {
        None => Seq::empty(),
        Some((plan, feedback)) => PLAN_PREVIOUS@ + plan + PLAN_FEEDBACK@ + feedback,
    })
}

/// The prompt asking for the files of the approved plan, with the existing
/// code when there is some.
pub open spec fn execute_request_text(
    manifest: Seq<char>,
    service: Seq<char>,
    plan: Seq<char>,
    existing: Seq<char>,
) -> Seq<char> {
    execute_prompt_text(manifest, service, plan) + existing_code_part(
        EXECUTE_EXISTING_CODE@,
        existing,
    )
}

fn append_existing_code(p: &mut String, intro: &str, existing: &str)
    ensures
        final(p)@ == old(p)@ + existing_code_part(intro@, existing@),
{
    if existing.unicode_len() > 0 {
        p.append(intro);
        p.append(existing);
    } else {
        assert(old(p)@ + Seq::<char>::empty() == old(p)@);
    }
}

/// The plan prompt of a run; `revision` is the previous plan and the
/// user's feedback on it.
pub fn plan_request(
    manifest: &str,
    service: &str,
    existing: &str,
    revision: Option<(&str, &str)>,
) -> (p: String)
    ensures
        p@ == plan_request_text(
            manifest@,
            service@,
            existing@,
            match revision {
                None => None,
                Some((plan, feedback)) => Some((plan@, feedback@)),
            },
        ),
{
    let mut p = plan_prompt(manifest, service);
    append_existing_code(&mut p, PLAN_EXISTING_CODE, existing);
    match revision {
        None => {
            assert(p@ + Seq::<char>::empty() == p@);
        },
        Some((plan, feedback)) => {
            let ghost before = p@;
            p.append(PLAN_PREVIOUS);
            p.append(plan);
            p.append(PLAN_FEEDBACK);
            p.append(feedback);
            assert(p@ == before + (PLAN_PREVIOUS@ + plan@ + PLAN_FEEDBACK@ + feedback@));
        },
    }
    p
}

/// The prompt asking for the files of the approved plan.
pub fn execute_request(manifest: &str, service: &str, plan: &str, existing: &str) -> (p: String)
    ensures
        p@ == execute_request_text(manifest@, service@, plan@, existing@),
{
    let mut p = execute_prompt(manifest, service, plan);
    append_existing_code(&mut p, EXECUTE_EXISTING_CODE, existing);
    p
}

/// Where a run stands. `T` is the text type: `String` in a running
/// program, `Seq<char>` in its specification.
#[derive(Debug)]
pub enum RunStateOf<T> {
    /// Nothing done yet.
    Start,
    /// The first plan was asked for.
    Planning,
    /// This plan is shown to the user, who approves, revises or skips it.
    Reviewing(T),
    /// The user is typing feedback on this plan.
    AwaitingFeedback(T),
    /// A revision of this plan was asked for.
    Revising(T),
    /// The files of this approved plan are being written.
    Generating(T),
    /// The validation agent is reviewing the written files.
    Validating,
    /// The validation report is shown to the user.
    ConfirmingValidation,
    /// The run is over.
    Done,
}

/// What happened since the last step.
#[derive(Debug)]
pub enum RunEventOf<T> {
    /// The run begins.
    Started,
    /// The model answered a plan request (or failed to).
    PlanReceived(Result<T, T>),
    /// The user typed this line.
    Answered(T),
    /// The generated files were written (or could not be).
    FilesWritten(Result<(), T>),
    /// The validation agent answered (or failed to).
    ReportReceived(Result<T, T>),
}

/// Why a plan is shown again.
#[derive(Debug)]
pub enum PlanNoteOf<T> {
    /// A new plan.
    Fresh,
    /// The user gave no feedback, so the plan is unchanged.
    NoFeedback,
    /// The revision failed with this error, so the previous plan is kept.
    RevisionFailed(T),
}

/// How a run ended.
#[derive(Debug)]
pub enum RunOutcomeOf<T> {
    /// The service has no manifest; it is ignored.
    NoManifest,
    /// The first plan could not be had.
    PlanFailed(T),
    /// The user skipped the service.
    Skipped,
    /// The files could not be generated or written.
    GenerationFailed(T),
    /// The files were written and there are no validation rules.
    Generated,
    /// The validation agent failed.
    ValidationFailed(T),
    /// The user rejected the validation results.
    ValidationRejected,
    /// The user accepted the validation results.
    Validated,
}

/// What the caller does next.
#[derive(Debug)]
pub enum RunActionOf<T> {
    /// Ask the model for a plan with this prompt.
    RequestPlan(T),
    /// Show this plan (with a note) and ask "approve? [Y/n/i]".
    AskApproval(T, PlanNoteOf<T>),
    /// Ask the user for feedback on the plan.
    AskFeedback,
    /// Ask the model for the files with this prompt and write them.
    GenerateFiles(T),
    /// Ask the validation agent to review the service's files.
    Validate,
    /// Show this report and ask "approve the validation? [Y/n]".
    AskValidationApproval(T),
    /// The run is over.
    Finish(RunOutcomeOf<T>),
    /// The event does not fit the state: nothing to do.
    Nothing,
}

pub type RunState = RunStateOf<String>;

pub type RunEvent = RunEventOf<String>;

pub type PlanNote = PlanNoteOf<String>;

pub type RunOutcome = RunOutcomeOf<String>;

pub type RunAction = RunActionOf<String>;

/// A result with its texts taken as character sequences.
pub open spec fn text_result(r: Result<String, String>) -> Result<Seq<char>, Seq<char>> {
    match r {
        Ok(t) => Ok(t@),
        Err(e) => Err(e@),
    }
}

impl View for RunStateOf<String> {
    type V = RunStateOf<Seq<char>>;

    open spec fn view(&self) -> RunStateOf<Seq<char>> {
        match self {
            RunStateOf::Start => RunStateOf::Start,
            RunStateOf::Planning => RunStateOf::Planning,
            RunStateOf::Reviewing(p) => RunStateOf::Reviewing(p@),
            RunStateOf::AwaitingFeedback(p) => RunStateOf::AwaitingFeedback(p@),
            RunStateOf::Revising(p) => RunStateOf::Revising(p@),
            RunStateOf::Generating(p) => RunStateOf::Generating(p@),
            RunStateOf::Validating => RunStateOf::Validating,
            RunStateOf::ConfirmingValidation => RunStateOf::ConfirmingValidation,
            RunStateOf::Done => RunStateOf::Done,
        }
    }
}

impl View for RunEventOf<String> {
    type V = RunEventOf<Seq<char>>;

    open spec fn view(&self) -> RunEventOf<Seq<char>> {
        match self {
            RunEventOf::Started => RunEventOf::Started,
            RunEventOf::PlanReceived(r) => RunEventOf::PlanReceived(text_result(*r)),
            RunEventOf::Answered(a) => RunEventOf::Answered(a@),
            RunEventOf::FilesWritten(r) => RunEventOf::FilesWritten(
                match r {
                    Ok(()) => Ok(()),
                    Err(e) => Err(e@),
                },
            ),
            RunEventOf::ReportReceived(r) => RunEventOf::ReportReceived(text_result(*r)),
        }
    }
}

impl View for PlanNoteOf<String> {
    type V = PlanNoteOf<Seq<char>>;

    open spec fn view(&self) -> PlanNoteOf<Seq<char>> {
        match self {
            PlanNoteOf::Fresh => PlanNoteOf::Fresh,
            PlanNoteOf::NoFeedback => PlanNoteOf::NoFeedback,
            PlanNoteOf::RevisionFailed(e) => PlanNoteOf::RevisionFailed(e@),
        }
    }
}

impl View for RunOutcomeOf<String> {
    type V = RunOutcomeOf<Seq<char>>;

    open spec fn view(&self) -> RunOutcomeOf<Seq<char>> {
        match self {
            RunOutcomeOf::NoManifest => RunOutcomeOf::NoManifest,
            RunOutcomeOf::PlanFailed(e) => RunOutcomeOf::PlanFailed(e@),
            RunOutcomeOf::Skipped => RunOutcomeOf::Skipped,
            RunOutcomeOf::GenerationFailed(e) => RunOutcomeOf::GenerationFailed(e@),
            RunOutcomeOf::Generated => RunOutcomeOf::Generated,
            RunOutcomeOf::ValidationFailed(e) => RunOutcomeOf::ValidationFailed(e@),
            RunOutcomeOf::ValidationRejected => RunOutcomeOf::ValidationRejected,
            RunOutcomeOf::Validated => RunOutcomeOf::Validated,
        }
    }
}

impl View for RunActionOf<String> {
    type V = RunActionOf<Seq<char>>;

    open spec fn view(&self) -> RunActionOf<Seq<char>> {
        match self {
            RunActionOf::RequestPlan(p) => RunActionOf::RequestPlan(p@),
            RunActionOf::AskApproval(p, n) => RunActionOf::AskApproval(p@, n@),
            RunActionOf::AskFeedback => RunActionOf::AskFeedback,
            RunActionOf::GenerateFiles(p) => RunActionOf::GenerateFiles(p@),
            RunActionOf::Validate => RunActionOf::Validate,
            RunActionOf::AskValidationApproval(r) => RunActionOf::AskValidationApproval(r@),
            RunActionOf::Finish(o) => RunActionOf::Finish(o@),
            RunActionOf::Nothing => RunActionOf::Nothing,
        }
    }
}

/// One step of a run of the service `service`, described by `manifest`,
/// whose existing code is `existing`; `has_rules` says whether there are
/// validation rules.
pub open spec fn run_step_spec(
    manifest: Seq<char>,
    service: Seq<char>,
    existing: Seq<char>,
    has_rules: bool,
    state: RunStateOf<Seq<char>>,
    event: RunEventOf<Seq<char>>,
) -> (RunStateOf<Seq<char>>, RunActionOf<Seq<char>>) {
    match (state, event) {
        (RunStateOf::Start, RunEventOf::Started) => if manifest.len() == 0 {
            (RunStateOf::Done, RunActionOf::Finish(RunOutcomeOf::NoManifest))
        } else {
            (
                RunStateOf::Planning,
                RunActionOf::RequestPlan(plan_request_text(manifest, service, existing, None)),
            )
        },
        (RunStateOf::Planning, RunEventOf::PlanReceived(Ok(plan))) => (
            RunStateOf::Reviewing(plan),
            RunActionOf::AskApproval(plan, PlanNoteOf::Fresh),
        ),
        (RunStateOf::Planning, RunEventOf::PlanReceived(Err(e))) => (
            RunStateOf::Done,
            RunActionOf::Finish(RunOutcomeOf::PlanFailed(e)),
        ),
        (RunStateOf::Reviewing(plan), RunEventOf::Answered(input)) => match review_choice(input) {
            ReviewDecision::Skip => (RunStateOf::Done, RunActionOf::Finish(RunOutcomeOf::Skipped)),
            ReviewDecision::Feedback => (RunStateOf::AwaitingFeedback(plan), RunActionOf::AskFeedback),
            ReviewDecision::Approve => (
                RunStateOf::Generating(plan),
                RunActionOf::GenerateFiles(execute_request_text(manifest, service, plan, existing)),
            ),
        },
        (RunStateOf::AwaitingFeedback(plan), RunEventOf::Answered(input)) => if trimmed(input).len()
            == 0 {
            (RunStateOf::Reviewing(plan), RunActionOf::AskApproval(plan, PlanNoteOf::NoFeedback))
        } else {
            (
                RunStateOf::Revising(plan),
                RunActionOf::RequestPlan(
                    plan_request_text(manifest, service, existing, Some((plan, trimmed(input)))),
                ),
            )
        },
        (RunStateOf::Revising(_), RunEventOf::PlanReceived(Ok(plan))) => (
            RunStateOf::Reviewing(plan),
            RunActionOf::AskApproval(plan, PlanNoteOf::Fresh),
        ),
        (RunStateOf::Revising(plan), RunEventOf::PlanReceived(Err(e))) => (
            RunStateOf::Reviewing(plan),
            RunActionOf::AskApproval(plan, PlanNoteOf::RevisionFailed(e)),
        ),
        (RunStateOf::Generating(_), RunEventOf::FilesWritten(Ok(()))) => if has_rules {
            (RunStateOf::Validating, RunActionOf::Validate)
        } else {
            (RunStateOf::Done, RunActionOf::Finish(RunOutcomeOf::Generated))
        },
        (RunStateOf::Generating(_), RunEventOf::FilesWritten(Err(e))) => (
            RunStateOf::Done,
            RunActionOf::Finish(RunOutcomeOf::GenerationFailed(e)),
        ),
        (RunStateOf::Validating, RunEventOf::ReportReceived(Ok(report))) => (
            RunStateOf::ConfirmingValidation,
            RunActionOf::AskValidationApproval(report),
        ),
        (RunStateOf::Validating, RunEventOf::ReportReceived(Err(e))) => (
            RunStateOf::Done,
            RunActionOf::Finish(RunOutcomeOf::ValidationFailed(e)),
        ),
        (RunStateOf::ConfirmingValidation, RunEventOf::Answered(input)) => if normalized_answer(
            input,
        ) == "n"@ {
            (RunStateOf::Done, RunActionOf::Finish(RunOutcomeOf::ValidationRejected))
        } else {
            (RunStateOf::Done, RunActionOf::Finish(RunOutcomeOf::Validated))
        },
        (state, _) => (state, RunActionOf::Nothing),
    }
}

/// One step of the run: the next state and what to do, as `run_step_spec`
/// says.
pub fn run_step(
    manifest: &str,
    service: &str,
    existing: &str,
    has_rules: bool,
    state: RunState,
    event: RunEvent,
) -> (r: (RunState, RunAction))
    ensures
        (r.0@, r.1@) == run_step_spec(manifest@, service@, existing@, has_rules, state@, event@),
        event matches RunEventOf::Answered(i) && trimmed(i@).len() == 0 ==> (state is Reviewing
            ==> r.1 is GenerateFiles) && (state is ConfirmingValidation ==> r.1 == RunActionOf::<
            String,
        >::Finish(RunOutcomeOf::Validated)),
{
    match (state, event) {
        (RunStateOf::Start, RunEventOf::Started) => {
            if manifest.unicode_len() == 0 {
                (RunStateOf::Done, RunActionOf::Finish(RunOutcomeOf::NoManifest))
            } else {
                let p = plan_request(manifest, service, existing, None);
                (RunStateOf::Planning, RunActionOf::RequestPlan(p))
            }
        },
        (RunStateOf::Planning, RunEventOf::PlanReceived(Ok(plan))) => {
            let shown = plan.clone();
            (RunStateOf::Reviewing(plan), RunActionOf::AskApproval(shown, PlanNoteOf::Fresh))
        },
        (RunStateOf::Planning, RunEventOf::PlanReceived(Err(e))) => {
            (RunStateOf::Done, RunActionOf::Finish(RunOutcomeOf::PlanFailed(e)))
        },
        (RunStateOf::Reviewing(plan), RunEventOf::Answered(input)) => {
            match review_decision(input.as_str()) {
                ReviewDecision::Skip => (RunStateOf::Done, RunActionOf::Finish(RunOutcomeOf::Skipped)),
                ReviewDecision::Feedback => (RunStateOf::AwaitingFeedback(plan), RunActionOf::AskFeedback),
                ReviewDecision::Approve => {
                    let p = execute_request(manifest, service, plan.as_str(), existing);
                    (RunStateOf::Generating(plan), RunActionOf::GenerateFiles(p))
                },
            }
        },
        (RunStateOf::AwaitingFeedback(plan), RunEventOf::Answered(input)) => {
            match feedback_text(input.as_str()) {
                None => {
                    let shown = plan.clone();
                    (RunStateOf::Reviewing(plan), RunActionOf::AskApproval(shown, PlanNoteOf::NoFeedback))
                },
                Some(f) => {
                    let p = plan_request(manifest, service, existing, Some((plan.as_str(), f.as_str())));
                    (RunStateOf::Revising(plan), RunActionOf::RequestPlan(p))
                },
            }
        },
        (RunStateOf::Revising(_), RunEventOf::PlanReceived(Ok(plan))) => {
            let shown = plan.clone();
            (RunStateOf::Reviewing(plan), RunActionOf::AskApproval(shown, PlanNoteOf::Fresh))
        },
        (RunStateOf::Revising(plan), RunEventOf::PlanReceived(Err(e))) => {
            let shown = plan.clone();
            (RunStateOf::Reviewing(plan), RunActionOf::AskApproval(shown, PlanNoteOf::RevisionFailed(e)))
        },
        (RunStateOf::Generating(_), RunEventOf::FilesWritten(Ok(()))) => {
            if has_rules {
                (RunStateOf::Validating, RunActionOf::Validate)
            } else {
                (RunStateOf::Done, RunActionOf::Finish(RunOutcomeOf::Generated))
            }
        },
        (RunStateOf::Generating(_), RunEventOf::FilesWritten(Err(e))) => {
            (RunStateOf::Done, RunActionOf::Finish(RunOutcomeOf::GenerationFailed(e)))
        },
        (RunStateOf::Validating, RunEventOf::ReportReceived(Ok(report))) => {
            (RunStateOf::ConfirmingValidation, RunActionOf::AskValidationApproval(report))
        },
        (RunStateOf::Validating, RunEventOf::ReportReceived(Err(e))) => {
            (RunStateOf::Done, RunActionOf::Finish(RunOutcomeOf::ValidationFailed(e)))
        },
        (RunStateOf::ConfirmingValidation, RunEventOf::Answered(input)) => {
            if validation_rejected(input.as_str()) {
                (RunStateOf::Done, RunActionOf::Finish(RunOutcomeOf::ValidationRejected))
            } else {
                (RunStateOf::Done, RunActionOf::Finish(RunOutcomeOf::Validated))
            }
        },
        (state, _) => (state, RunActionOf::Nothing),
    }
}

/// With no existing code and no revision, a run asks for its plan with
/// exactly the prompt of `generate_plan`.
pub proof fn law_first_plan_prompt_is_plain(manifest: Seq<char>, service: Seq<char>)
    ensures
        plan_request_text(manifest, service, Seq::empty(), None) == plan_prompt_text(
            manifest,
            service,
        ),
{
    assert(plan_prompt_text(manifest, service) + Seq::<char>::empty() + Seq::<char>::empty()
        =~= plan_prompt_text(manifest, service));
}

/// Files are generated only for a plan the user has just approved, and the
/// run then remembers that plan.
pub proof fn law_generation_needs_approval(
    manifest: Seq<char>,
    service: Seq<char>,
    existing: Seq<char>,
    has_rules: bool,
    state: RunStateOf<Seq<char>>,
    event: RunEventOf<Seq<char>>,
)
    requires
        run_step_spec(manifest, service, existing, has_rules, state, event).1 is GenerateFiles,
    ensures
        state matches RunStateOf::Reviewing(plan) && event matches RunEventOf::Answered(input)
            && review_choice(input) == ReviewDecision::Approve && run_step_spec(
            manifest,
            service,
            existing,
            has_rules,
            state,
            event,
        ) == (
            RunStateOf::Generating(plan),
            RunActionOf::GenerateFiles(execute_request_text(manifest, service, plan, existing)),
        ),
{
}

/// The plan under review changes only to a plan the model has just
/// returned: a blank feedback or a failed revision keeps it.
pub proof fn law_plan_changes_only_by_model(
    manifest: Seq<char>,
    service: Seq<char>,
    existing: Seq<char>,
    has_rules: bool,
    plan: Seq<char>,
    event: RunEventOf<Seq<char>>,
    next: Seq<char>,
)
    requires
        run_step_spec(
            manifest,
            service,
            existing,
            has_rules,
            RunStateOf::AwaitingFeedback(plan),
            event,
        ).0 == RunStateOf::Reviewing(next) || run_step_spec(
            manifest,
            service,
            existing,
            has_rules,
            RunStateOf::Revising(plan),
            event,
        ).0 == RunStateOf::Reviewing(next),
    ensures
        next == plan || event == RunEventOf::<Seq<char>>::PlanReceived(Ok(next)),
{
}

/// Validation is asked for only when there are validation rules, right
/// after the files were written.
pub proof fn law_validation_needs_rules(
    manifest: Seq<char>,
    service: Seq<char>,
    existing: Seq<char>,
    has_rules: bool,
    state: RunStateOf<Seq<char>>,
    event: RunEventOf<Seq<char>>,
)
    requires
        run_step_spec(manifest, service, existing, has_rules, state, event).1 is Validate,
    ensures
        has_rules,
        state is Generating,
        event matches RunEventOf::FilesWritten(Ok(_)),
{
}

/// A finished run stays finished and asks for nothing more.
pub proof fn law_done_is_final(
    manifest: Seq<char>,
    service: Seq<char>,
    existing: Seq<char>,
    has_rules: bool,
    event: RunEventOf<Seq<char>>,
)
    ensures
        run_step_spec(manifest, service, existing, has_rules, RunStateOf::Done, event) == (
            RunStateOf::<Seq<char>>::Done,
            RunActionOf::<Seq<char>>::Nothing,
        ),
{
}

/// A run ends exactly when it says so: every step that finishes goes to
/// `Done`, and every step into `Done` (from another state) finishes.
pub proof fn law_finish_means_done(
    manifest: Seq<char>,
    service: Seq<char>,
    existing: Seq<char>,
    has_rules: bool,
    state: RunStateOf<Seq<char>>,
    event: RunEventOf<Seq<char>>,
)
    requires
        state !is Done,
    ensures
        ({
            let r = run_step_spec(manifest, service, existing, has_rules, state, event);
            r.1 is Finish <==> r.0 is Done
        }),
{
}

/// A revision asks for the plan as a first request would, followed by the
/// previous plan and then the user's feedback, in full, whatever the
/// existing code (none too).
pub proof fn law_revision_carries_plan_and_feedback(
    manifest: Seq<char>,
    service: Seq<char>,
    existing: Seq<char>,
    plan: Seq<char>,
    feedback: Seq<char>,
)
    ensures
        plan_request_text(manifest, service, existing, Some((plan, feedback))) == plan_request_text(
            manifest,
            service,
            existing,
            None,
        ) + PLAN_PREVIOUS@ + plan + PLAN_FEEDBACK@ + feedback,
        plan_request_text(manifest, service, Seq::empty(), Some((plan, feedback)))
            == plan_prompt_text(manifest, service) + PLAN_PREVIOUS@ + plan + PLAN_FEEDBACK@
            + feedback,
{
    let base = plan_prompt_text(manifest, service) + existing_code_part(PLAN_EXISTING_CODE@, existing);
    assert(base + Seq::<char>::empty() =~= base);
    assert(base + (PLAN_PREVIOUS@ + plan + PLAN_FEEDBACK@ + feedback) =~= base + PLAN_PREVIOUS@
        + plan + PLAN_FEEDBACK@ + feedback);
    let plain = plan_prompt_text(manifest, service);
    assert(plain + Seq::<char>::empty() + (PLAN_PREVIOUS@ + plan + PLAN_FEEDBACK@ + feedback)
        =~= plain + PLAN_PREVIOUS@ + plan + PLAN_FEEDBACK@ + feedback);
}

/// Feedback that is not blank is never ignored: the run asks for a revision
/// of the plan under review, and the request ends with that plan and the
/// trimmed feedback.
pub proof fn law_feedback_asks_for_revision(
    manifest: Seq<char>,
    service: Seq<char>,
    existing: Seq<char>,
    has_rules: bool,
    plan: Seq<char>,
    input: Seq<char>,
)
    requires
        trimmed(input).len() > 0,
    ensures
        run_step_spec(
            manifest,
            service,
            existing,
            has_rules,
            RunStateOf::AwaitingFeedback(plan),
            RunEventOf::Answered(input),
        ) == (
            RunStateOf::Revising(plan),
            RunActionOf::RequestPlan(
                plan_request_text(manifest, service, existing, None) + PLAN_PREVIOUS@ + plan
                    + PLAN_FEEDBACK@ + trimmed(input),
            ),
        ),
{
    law_revision_carries_plan_and_feedback(manifest, service, existing, plan, trimmed(input));
}

} // verus!
