use vstd::prelude::*;
use crate::git::{GitError, GitInvocation, GitStep, next_step, step_after, step_call, step_invocation};
use crate::message::{
    build_header, build_issue_trailer, build_todo_footer, header_text, issue_trailer_text,
    todo_footer_text,
};

verus! {

/// The Definition-of-Done checklist and whether an issue reference is
/// required.
#[derive(Debug, Clone)]
pub struct DodConfig {
    pub issue_reference_required: Option<bool>,
    pub checklist: Vec<String>,
}

/// What the user asked to commit.
#[derive(Debug, Clone)]
pub struct CommitRequest {
    pub commit_type: String,
    pub scope: Option<String>,
    pub message: String,
    pub skip_checklist: bool,
    pub issue: Option<String>,
}

/// Why a commit did not go through.
#[derive(Debug, Clone)]
pub enum CommitError {
    /// An issue reference is required and none was given.
    MissingIssueReference,
    /// A git invocation failed.
    Gateway(GitError),
}

impl CommitError {
    /// A one-line description of the failure; a git failure keeps the text
    /// that git reported.
    pub fn describe(&self) -> (r: String)
        ensures
            match self {
                CommitError::MissingIssueReference => r@ == "Aborted: Issue reference required."@,
                CommitError::Gateway(e) => r@ == crate::git::describe_text(e.text_view()),
            },
    {
        match self {
            CommitError::MissingIssueReference => "Aborted: Issue reference required.".to_owned(),
            CommitError::Gateway(e) => e.describe(),
        }
    }
}

/// Where a commit stands.
#[derive(Debug, Clone, Copy, PartialEq, Eq, Structural)]
pub enum Phase {
    Start,
    /// Waiting for the user to tick the checklist.
    Selecting,
    /// Waiting for the user to accept a TODO footer.
    Proceeding,
    /// Waiting for a git step to finish.
    Running(GitStep),
    Done,
    Aborted,
    Failed,
}

/// What the caller reports back.
#[derive(Debug, Clone)]
pub enum Event {
    /// The commit is to begin.
    Begin,
    /// The indices of the checklist items that the user confirmed.
    Selected(Vec<usize>),
    /// Whether the user accepts a commit with a TODO footer.
    Proceed(bool),
    /// The running git step succeeded.
    StepSucceeded,
    /// The running git step failed.
    StepFailed(GitError),
}

/// What the caller is to do next.
#[derive(Debug)]
pub enum Action {
    /// Ask the user to tick the checklist items.
    PromptChecklist,
    /// Ask the user whether to commit with a TODO footer.
    PromptProceed,
    /// Run a git step.
    Run(GitStep),
    /// Stop: `Ok(true)` after a push, `Ok(false)` when the user declined.
    Finish(Result<bool, CommitError>),
}

/// The view of an optional string.
pub open spec fn opt_string_view(o: Option<String>) -> Option<Seq<char>> {
    match o {
        Some(s) => Some(s@),
        None => None,
    }
}

/// An issue reference is required and the request has none.
pub open spec fn issue_missing(req: CommitRequest, config: DodConfig) -> bool {
    config.issue_reference_required == Some(true) && req.issue is None
}

/// The full commit message: header, then the footer, then the issue trailer.
pub open spec fn message_text(req: CommitRequest, footer: Seq<char>) -> Seq<char> {
    header_text(req.commit_type@, opt_string_view(req.scope), req.message@) + footer
        + issue_trailer_text(opt_string_view(req.issue))
}

/// Whether `ev` is an answer that `phase` waits for.
pub open spec fn accepts(phase: Phase, ev: Event) -> bool {
    match (phase, ev) {
        (Phase::Start, Event::Begin) => true,
        (Phase::Selecting, Event::Selected(_)) => true,
        (Phase::Proceeding, Event::Proceed(_)) => true,
        (Phase::Running(_), Event::StepSucceeded) => true,
        (Phase::Running(_), Event::StepFailed(_)) => true,
        _ => false,
    }
}

/// Once the checklist is settled: fail when the issue reference is missing,
/// else start staging.
pub open spec fn settled(req: CommitRequest, config: DodConfig, footer: Seq<char>) -> (Phase, Seq<char>, Action) {
    if issue_missing(req, config) {
        (Phase::Failed, footer, Action::Finish(Err(CommitError::MissingIssueReference)))
    } else {
        (Phase::Running(GitStep::Stage), footer, Action::Run(GitStep::Stage))
    }
}

/// The next phase, footer and action after `ev` in `phase`.
pub open spec fn transition(
    req: CommitRequest,
    config: DodConfig,
    phase: Phase,
    footer: Seq<char>,
    ev: Event,
) -> (Phase, Seq<char>, Action) {
    match (phase, ev) {
        (Phase::Start, Event::Begin) => if req.skip_checklist || config.checklist.len() == 0 {
            settled(req, config, Seq::empty())
        } else {
            (Phase::Selecting, footer, Action::PromptChecklist)
        },
        (Phase::Selecting, Event::Selected(picked)) => if picked.len() == config.checklist.len() {
            settled(req, config, Seq::empty())
        } else {
            (
                Phase::Proceeding,
                todo_footer_text(config.checklist.deep_view(), picked@),
                Action::PromptProceed,
            )
        },
        (Phase::Proceeding, Event::Proceed(yes)) => if yes {
            settled(req, config, footer)
        } else {
            (Phase::Aborted, footer, Action::Finish(Ok(false)))
        },
        (Phase::Running(s), Event::StepSucceeded) => match step_after(s) {
            Some(t) => (Phase::Running(t), footer, Action::Run(t)),
            None => (Phase::Done, footer, Action::Finish(Ok(true))),
        },
        (Phase::Running(_), Event::StepFailed(e)) => (
            Phase::Failed,
            footer,
            Action::Finish(Err(CommitError::Gateway(e))),
        ),
        // Not reached through `advance`, whose callers only pass events that
        // `accepts` admits.
        _ => (phase, footer, Action::PromptProceed),
    }
}

/// The actions produced by feeding `events` in order, up to the first one
/// that the phase reached does not wait for.
pub open spec fn trace(
    req: CommitRequest,
    config: DodConfig,
    phase: Phase,
    footer: Seq<char>,
    events: Seq<Event>,
) -> Seq<Action>
    decreases events.len(),
{
    if events.len() == 0 || !accepts(phase, events[0]) {
        Seq::empty()
    } else {
        let (p, f, a) = transition(req, config, phase, footer, events[0]);
        seq![a] + trace(req, config, p, f, events.drop_first())
    }
}

/// One commit in progress: the request, the checklist, the phase reached
/// and the TODO footer settled so far.
#[derive(Debug)]
pub struct CommitFlow {
    pub request: CommitRequest,
    pub config: DodConfig,
    pub phase: Phase,
    pub footer: String,
}

impl CommitFlow {
    /// A commit that has not begun.
    pub fn new(request: CommitRequest, config: DodConfig) -> (r: CommitFlow)
        ensures
            r.request == request,
            r.config == config,
            r.phase == Phase::Start,
            r.footer@ == Seq::<char>::empty(),
    {
        CommitFlow { request, config, phase: Phase::Start, footer: String::new() }
    }

    /// Whether the commit waits for `ev`.
    pub fn accepts(&self, ev: &Event) -> (r: bool)
        ensures
            r == accepts(self.phase, *ev),
    {
        match (self.phase, ev) {
            (Phase::Start, Event::Begin) => true,
            (Phase::Selecting, Event::Selected(_)) => true,
            (Phase::Proceeding, Event::Proceed(_)) => true,
            (Phase::Running(_), Event::StepSucceeded) => true,
            (Phase::Running(_), Event::StepFailed(_)) => true,
            _ => false,
        }
    }

    fn settle(&mut self, footer: String) -> (r: Action)
        ensures
            final(self).request == old(self).request,
            final(self).config == old(self).config,
            (final(self).phase, final(self).footer@, r) == settled(old(self).request, old(self).config, footer@),
    {
        self.footer = footer;
        let required = match self.config.issue_reference_required {
            Some(b) => b,
            None => false,
        };
        if required && self.request.issue.is_none() {
            self.phase = Phase::Failed;
            Action::Finish(Err(CommitError::MissingIssueReference))
        } else {
            self.phase = Phase::Running(GitStep::Stage);
            Action::Run(GitStep::Stage)
        }
    }

    /// Takes the caller's answer and says what to do next.
    pub fn advance(&mut self, ev: Event) -> (r: Action)
        requires
            accepts(old(self).phase, ev),
        ensures
            final(self).request == old(self).request,
            final(self).config == old(self).config,
            (final(self).phase, final(self).footer@, r) == transition(
                old(self).request,
                old(self).config,
                old(self).phase,
                old(self).footer@,
                ev,
            ),
    {
        match ev {
            Event::Begin => {
                if self.request.skip_checklist || self.config.checklist.len() == 0 {
                    self.settle(String::new())
                } else {
                    self.phase = Phase::Selecting;
                    Action::PromptChecklist
                }
            },
            Event::Selected(picked) => {
                if picked.len() == self.config.checklist.len() {
                    self.settle(String::new())
                } else {
                    self.footer = build_todo_footer(&self.config.checklist, &picked);
                    self.phase = Phase::Proceeding;
                    Action::PromptProceed
                }
            },
            Event::Proceed(yes) => {
                if yes {
                    let footer = self.footer.clone();
                    self.settle(footer)
                } else {
                    self.phase = Phase::Aborted;
                    Action::Finish(Ok(false))
                }
            },
            Event::StepSucceeded => {
                match self.phase {
                    Phase::Running(s) => match next_step(s) {
                        Some(t) => {
                            self.phase = Phase::Running(t);
                            Action::Run(t)
                        },
                        None => {
                            self.phase = Phase::Done;
                            Action::Finish(Ok(true))
                        },
                    },
                    _ => Action::PromptProceed,
                }
            },
            Event::StepFailed(e) => {
                self.phase = Phase::Failed;
                Action::Finish(Err(CommitError::Gateway(e)))
            },
        }
    }

    /// The full commit message as settled so far.
    pub fn commit_message(&self) -> (r: String)
        ensures
            r@ == message_text(self.request, self.footer@),
    {
        let scope = match &self.request.scope {
            Some(s) => Some(s.as_str()),
            None => None,
        };
        let issue = match &self.request.issue {
            Some(s) => Some(s.as_str()),
            None => None,
        };
        let mut r = build_header(self.request.commit_type.as_str(), scope, self.request.message.as_str());
        r.append(self.footer.as_str());
        let trailer = build_issue_trailer(issue);
        r.append(trailer.as_str());
        r
    }

    /// The git invocation for `step`, committing with the full message.
    pub fn invocation(&self, step: GitStep, verbose: bool) -> (r: GitInvocation)
        ensures
            (r.command_view(), r.args_view()) == step_call(step, message_text(self.request, self.footer@)),
            r.verbose == verbose,
    {
        let message = self.commit_message();
        step_invocation(step, message.as_str(), verbose)
    }
}

/// Before any git step runs, a missing required issue reference keeps every
/// later step from running.
proof fn lemma_missing_issue_stays_idle(
    req: CommitRequest,
    config: DodConfig,
    phase: Phase,
    footer: Seq<char>,
    events: Seq<Event>,
)
    requires
        issue_missing(req, config),
        !(phase is Running),
    ensures
        forall|k: int| 0 <= k < trace(req, config, phase, footer, events).len() ==>
            !(#[trigger] trace(req, config, phase, footer, events)[k] is Run),
    decreases events.len(),
{
    if events.len() > 0 && accepts(phase, events[0]) {
        let (p, f, a) = transition(req, config, phase, footer, events[0]);
        lemma_missing_issue_stays_idle(req, config, p, f, events.drop_first());
        let rest = trace(req, config, p, f, events.drop_first());
        assert(trace(req, config, phase, footer, events) == seq![a] + rest);
        assert forall|k: int| 0 <= k < trace(req, config, phase, footer, events).len() implies
            !(#[trigger] trace(req, config, phase, footer, events)[k] is Run) by {
            if k > 0 {
                assert(trace(req, config, phase, footer, events)[k] == rest[k - 1]);
            }
        }
    }
}

/// When an issue reference is required and none is given, no git step ever
/// runs, whether the checklist is skipped or answered, and the commit fails
/// with the missing reference as soon as the checklist is settled.
pub proof fn lemma_missing_issue_runs_no_git(req: CommitRequest, config: DodConfig, events: Seq<Event>)
    requires
        issue_missing(req, config),
    ensures
        forall|k: int| 0 <= k < trace(req, config, Phase::Start, Seq::empty(), events).len() ==>
            !(#[trigger] trace(req, config, Phase::Start, Seq::empty(), events)[k] is Run),
        forall|footer: Seq<char>| settled(req, config, footer) == (
            Phase::Failed,
            footer,
            Action::Finish(Err(CommitError::MissingIssueReference)),
        ),
{
    lemma_missing_issue_stays_idle(req, config, Phase::Start, Seq::empty(), events);
}

/// Once a git step runs, the user can no longer decline.
proof fn lemma_running_never_declines(
    req: CommitRequest,
    config: DodConfig,
    phase: Phase,
    footer: Seq<char>,
    events: Seq<Event>,
)
    requires
        phase is Running,
    ensures
        !trace(req, config, phase, footer, events).contains(Action::Finish(Ok(false))),
    decreases events.len(),
{
    if events.len() > 0 && accepts(phase, events[0]) {
        let (p, f, a) = transition(req, config, phase, footer, events[0]);
        let rest = trace(req, config, p, f, events.drop_first());
        assert(trace(req, config, phase, footer, events) == seq![a] + rest);
        if p is Running {
            lemma_running_never_declines(req, config, p, f, events.drop_first());
        } else {
            assert(rest.len() == 0);
        }
        if trace(req, config, phase, footer, events).contains(Action::Finish(Ok(false))) {
            let k = choose|k: int| 0 <= k < trace(req, config, phase, footer, events).len()
                && trace(req, config, phase, footer, events)[k] == Action::Finish(Ok(false));
            if k > 0 {
                assert(rest[k - 1] == Action::Finish(Ok(false)));
            }
        }
    }
}

proof fn lemma_decline_before_running(
    req: CommitRequest,
    config: DodConfig,
    phase: Phase,
    footer: Seq<char>,
    events: Seq<Event>,
)
    requires
        phase == Phase::Start || phase == Phase::Selecting || phase == Phase::Proceeding,
        trace(req, config, phase, footer, events).contains(Action::Finish(Ok(false))),
    ensures
        forall|k: int| 0 <= k < trace(req, config, phase, footer, events).len() ==>
            !(#[trigger] trace(req, config, phase, footer, events)[k] is Run),
    decreases events.len(),
{
    let (p, f, a) = transition(req, config, phase, footer, events[0]);
    let whole = trace(req, config, phase, footer, events);
    let rest = trace(req, config, p, f, events.drop_first());
    assert(whole == seq![a] + rest);
    if p is Running {
        lemma_running_never_declines(req, config, p, f, events.drop_first());
        let k = choose|k: int| 0 <= k < whole.len() && whole[k] == Action::Finish(Ok(false));
        if k > 0 {
            assert(rest[k - 1] == Action::Finish(Ok(false)));
            assert(rest.contains(Action::Finish(Ok(false))));
        }
    } else if p == Phase::Start || p == Phase::Selecting || p == Phase::Proceeding {
        let k = choose|k: int| 0 <= k < whole.len() && whole[k] == Action::Finish(Ok(false));
        assert(k > 0);
        assert(rest[k - 1] == Action::Finish(Ok(false)));
        lemma_decline_before_running(req, config, p, f, events.drop_first());
        assert forall|j: int| 0 <= j < whole.len() implies !(#[trigger] whole[j] is Run) by {
            if j > 0 {
                assert(whole[j] == rest[j - 1]);
            }
        }
    } else {
        assert(rest.len() == 0);
    }
}

/// When the user declines to commit with a TODO footer, the commit stops
/// with success and no git step has run or will run.
pub proof fn lemma_decline_runs_no_git(
    req: CommitRequest,
    config: DodConfig,
    footer: Seq<char>,
    events: Seq<Event>,
)
    ensures
        trace(req, config, Phase::Start, Seq::empty(), events).contains(Action::Finish(Ok(false))) ==>
            forall|k: int| 0 <= k < trace(req, config, Phase::Start, Seq::empty(), events).len() ==>
                !(#[trigger] trace(req, config, Phase::Start, Seq::empty(), events)[k] is Run),
        transition(req, config, Phase::Proceeding, footer, Event::Proceed(false)) == (
            Phase::Aborted,
            footer,
            Action::Finish(Ok(false)),
        ),
        forall|ev: Event| !accepts(Phase::Aborted, ev),
{
    if trace(req, config, Phase::Start, Seq::empty(), events).contains(Action::Finish(Ok(false))) {
        lemma_decline_before_running(req, config, Phase::Start, Seq::empty(), events);
    }
}

/// A failing git step ends the commit with that step's error: nothing
/// after it runs.
pub proof fn lemma_failed_step_halts(
    req: CommitRequest,
    config: DodConfig,
    step: GitStep,
    footer: Seq<char>,
    error: GitError,
    later: Seq<Event>,
)
    ensures
        trace(req, config, Phase::Running(step), footer, seq![Event::StepFailed(error)] + later)
            == seq![Action::Finish(Err(CommitError::Gateway(error)))],
{
    let events = seq![Event::StepFailed(error)] + later;
    assert(events[0] == Event::StepFailed(error));
    assert(events.drop_first() =~= later);
    if later.len() > 0 {
        assert(!accepts(Phase::Failed, later[0]));
    }
    assert(trace(req, config, Phase::Failed, footer, later) =~= Seq::empty());
}

/// A commit that goes through runs stage, rebase-pull, commit and push in
/// that order, each only after the one before it succeeded, and then
/// reports success.
pub proof fn lemma_steps_run_in_order(req: CommitRequest, config: DodConfig)
    requires
        !issue_missing(req, config),
        req.skip_checklist || config.checklist.len() == 0,
    ensures
        trace(
            req,
            config,
            Phase::Start,
            Seq::empty(),
            seq![
                Event::Begin,
                Event::StepSucceeded,
                Event::StepSucceeded,
                Event::StepSucceeded,
                Event::StepSucceeded,
            ],
        ) == seq![
            Action::Run(GitStep::Stage),
            Action::Run(GitStep::RebasePull),
            Action::Run(GitStep::Commit),
            Action::Run(GitStep::Push),
            Action::Finish(Ok(true)),
        ],
{
    let e = seq![
        Event::Begin,
        Event::StepSucceeded,
        Event::StepSucceeded,
        Event::StepSucceeded,
        Event::StepSucceeded,
    ];
    let ok = Event::StepSucceeded;
    let empty = Seq::<char>::empty();
    assert(e.drop_first() =~= seq![ok, ok, ok, ok]);
    assert(seq![ok, ok, ok, ok].drop_first() =~= seq![ok, ok, ok]);
    assert(seq![ok, ok, ok].drop_first() =~= seq![ok, ok]);
    assert(seq![ok, ok].drop_first() =~= seq![ok]);
    assert(seq![ok].drop_first() =~= Seq::<Event>::empty());
    let t5 = trace(req, config, Phase::Done, empty, Seq::<Event>::empty());
    assert(t5 =~= Seq::empty());
    let t4 = trace(req, config, Phase::Running(GitStep::Push), empty, seq![ok]);
    assert(t4 =~= seq![Action::Finish(Ok(true))]);
    let t3 = trace(req, config, Phase::Running(GitStep::Commit), empty, seq![ok, ok]);
    assert(t3 =~= seq![Action::Run(GitStep::Push), Action::Finish(Ok(true))]);
    let t2 = trace(req, config, Phase::Running(GitStep::RebasePull), empty, seq![ok, ok, ok]);
    assert(t2 =~= seq![Action::Run(GitStep::Commit), Action::Run(GitStep::Push), Action::Finish(Ok(true))]);
    let t1 = trace(req, config, Phase::Running(GitStep::Stage), empty, seq![ok, ok, ok, ok]);
    assert(t1 =~= seq![
        Action::Run(GitStep::RebasePull),
        Action::Run(GitStep::Commit),
        Action::Run(GitStep::Push),
        Action::Finish(Ok(true)),
    ]);
    assert(trace(req, config, Phase::Start, empty, e) =~= seq![Action::Run(GitStep::Stage)] + t1);
}

} // verus!
