//! One run: confirmation, local initialisation, then creation of the hosted
//! repository. The caller performs each action and hands back what happened;
//! the session decides what comes next.
use vstd::prelude::*;
use crate::error::RepoError;
use crate::request::{Repository, Visibility};
use crate::text::{or_fallback, trim, trimmed};

verus! {

/// What an external tool reported when it exited.
#[derive(Debug)]
pub struct ToolOutput {
    pub success: bool,
    pub stdout: String,
    pub stderr: String,
}

/// What the caller hands to the session.
#[derive(Debug)]
pub enum Event {
    /// The line the user typed at the confirmation prompt.
    Answer(String),
    /// The tool that was asked for ran and exited.
    Exited(ToolOutput),
    /// The tool could not be launched; holds the reason.
    LaunchFailed(String),
}

/// Where the session stands. The last four are terminal.
#[derive(Clone, Copy, Debug, PartialEq, Eq, Structural)]
pub enum Stage {
    Confirming,
    Initializing,
    Creating,
    Cancelled,
    InitFailed,
    CreateFailed,
    Created,
}

/// What the caller is to do next.
#[derive(Clone, Copy, Debug, PartialEq, Eq, Structural)]
pub enum Action {
    /// Initialise the local repository.
    RunInit,
    /// Run the hosting tool with `Repository::create_args`.
    RunCreate,
    /// Stop: the session has reached a terminal stage.
    Finish,
    /// The event does not belong to the current stage and changed nothing.
    Ignore,
}

/// The user agrees when the answer's first character is `y` in either case.
pub open spec fn confirms(line: Seq<char>) -> bool {
    line.len() > 0 && (line[0] == 'y' || line[0] == 'Y')
}

pub open spec fn is_terminal(stage: Stage) -> bool {
    match stage {
        Stage::Confirming | Stage::Initializing | Stage::Creating => false,
        _ => true,
    }
}

/// A tool's run went wrong: it could not be launched, or it reported failure.
pub open spec fn is_failure(ev: Event) -> bool {
    match ev {
        Event::Exited(out) => !out.success,
        Event::LaunchFailed(_) => true,
        Event::Answer(_) => false,
    }
}

/// The text that explains a failed run: what the tool wrote to its error
/// stream, or the launch error.
pub open spec fn failure_text(ev: Event) -> Seq<char> {
    match ev {
        Event::Exited(out) => out.stderr@,
        Event::LaunchFailed(reason) => reason@,
        Event::Answer(line) => line@,
    }
}

/// Said of a failed initialisation that left no message.
pub open spec fn init_fallback() -> Seq<char> {
    "git init reported failure without a message"@
}

/// Said of a failed creation that left no message.
pub open spec fn create_fallback() -> Seq<char> {
    "Unknown error"@
}

/// The next stage and the action that an event brings about.
pub open spec fn transition(stage: Stage, ev: Event) -> (Stage, Action) {
    match (stage, ev) {
        (Stage::Confirming, Event::Answer(line)) => if confirms(line@) {
            (Stage::Initializing, Action::RunInit)
        } else {
            (Stage::Cancelled, Action::Finish)
        },
        (Stage::Initializing, Event::Answer(_)) => (stage, Action::Ignore),
        (Stage::Initializing, ev) => if is_failure(ev) {
            (Stage::InitFailed, Action::Finish)
        } else {
            (Stage::Creating, Action::RunCreate)
        },
        (Stage::Creating, Event::Answer(_)) => (stage, Action::Ignore),
        (Stage::Creating, ev) => if is_failure(ev) {
            (Stage::CreateFailed, Action::Finish)
        } else {
            (Stage::Created, Action::Finish)
        },
        (Stage::Confirming, _) => (stage, Action::Ignore),
        _ => (stage, Action::Finish),
    }
}

/// The session's text after an event: the failure message, or on success
/// the reference that the hosting tool printed.
pub open spec fn detail_after(stage: Stage, ev: Event, detail: Seq<char>) -> Seq<char> {
    let (next, _) = transition(stage, ev);
    if stage == next {
        detail
    } else {
        match next {
            Stage::InitFailed => or_fallback(trim(failure_text(ev)), init_fallback()),
            Stage::CreateFailed => or_fallback(trim(failure_text(ev)), create_fallback()),
            Stage::Created => match ev {
                Event::Exited(out) => trim(out.stdout@),
                _ => detail,
            },
            _ => detail,
        }
    }
}

/// The actions that a sequence of events brings about from `stage`.
pub open spec fn actions(stage: Stage, events: Seq<Event>) -> Seq<Action>
    decreases events.len(),
{
    if events.len() == 0 {
        Seq::empty()
    } else {
        let (next, a) = transition(stage, events[0]);
        seq![a] + actions(next, events.drop_first())
    }
}

proof fn lemma_terminal_only_finishes(stage: Stage, events: Seq<Event>)
    requires
        is_terminal(stage),
    ensures
        actions(stage, events).len() == events.len(),
        forall|i: int| 0 <= i < events.len() ==> actions(stage, events)[i] == Action::Finish,
    decreases events.len(),
{
    if events.len() > 0 {
        lemma_terminal_only_finishes(stage, events.drop_first());
        let rest = actions(stage, events.drop_first());
        assert forall|i: int| 0 <= i < events.len() implies actions(stage, events)[i]
            == Action::Finish by {
            if i > 0 {
                assert(actions(stage, events)[i] == rest[i - 1]);
            }
        }
    }
}

/// Once initialisation has failed, whatever happens next, the hosted
/// repository is never created: no action of the run is `RunCreate`.
pub proof fn init_failure_never_creates(events: Seq<Event>)
    requires
        events.len() > 0,
        is_failure(events[0]),
    ensures
        transition(Stage::Initializing, events[0]).0 == Stage::InitFailed,
        !actions(Stage::Initializing, events).contains(Action::RunCreate),
{
    lemma_terminal_only_finishes(Stage::InitFailed, events.drop_first());
    let all = actions(Stage::Initializing, events);
    let rest = actions(Stage::InitFailed, events.drop_first());
    assert forall|i: int| 0 <= i < all.len() implies all[i] != Action::RunCreate by {
        if i > 0 {
            assert(all[i] == rest[i - 1]);
        }
    }
}

/// An answer that does not confirm cancels the run: neither initialisation
/// nor creation is ever asked for, whatever events follow.
pub proof fn declined_answer_runs_nothing(line: String, rest: Seq<Event>)
    requires
        !confirms(line@),
    ensures
        transition(Stage::Confirming, Event::Answer(line)).0 == Stage::Cancelled,
        !actions(Stage::Confirming, seq![Event::Answer(line)] + rest).contains(Action::RunInit),
        !actions(Stage::Confirming, seq![Event::Answer(line)] + rest).contains(Action::RunCreate),
{
    let events = seq![Event::Answer(line)] + rest;
    assert(events.drop_first() =~= rest);
    lemma_terminal_only_finishes(Stage::Cancelled, rest);
    let all = actions(Stage::Confirming, events);
    let tail = actions(Stage::Cancelled, rest);
    assert forall|i: int| 0 <= i < all.len() implies all[i] == Action::Finish by {
        if i > 0 {
            assert(all[i] == tail[i - 1]);
        }
    }
}

/// When creation fails after initialisation succeeded, the session's message
/// is the tool's error text, trimmed, or `Unknown error` where that is empty.
pub proof fn create_failure_reports_stderr(out: ToolOutput, detail: Seq<char>)
    requires
        !out.success,
    ensures
        transition(Stage::Creating, Event::Exited(out)).0 == Stage::CreateFailed,
        detail_after(Stage::Creating, Event::Exited(out), detail) == if trim(out.stderr@).len()
            == 0 {
            "Unknown error"@
        } else {
            trim(out.stderr@)
        },
{
}

/// Whether the user's answer agrees to go on.
pub fn is_confirmation(line: &str) -> (r: bool)
    ensures
        r == confirms(line@),
{
    if line.unicode_len() == 0 {
        false
    } else {
        let c = line.get_char(0);
        c == 'y' || c == 'Y'
    }
}

impl Repository {
    /// The hosting tool's arguments that create this repository from the
    /// current directory: `repo create <name> --source=. --<visibility>`.
    pub fn create_args(&self) -> (r: Vec<String>)
        ensures
            r@.len() == 5,
            r@[0]@ == "repo"@,
            r@[1]@ == "create"@,
            r@[2]@ == self.name@,
            r@[3]@ == "--source=."@,
            r@[4]@ == "--"@ + self.visibility.spec_word(),
    {
        let mut r: Vec<String> = Vec::new();
        r.push(String::from_str("repo"));
        r.push(String::from_str("create"));
        r.push(self.name.clone());
        r.push(String::from_str("--source=."));
        r.push(self.visibility.flag());
        r
    }

    /// The question put to the user before anything is changed.
    pub fn prompt(&self) -> (r: String)
        ensures
            r@ == "Are you sure you want to create a "@ + self.visibility.spec_word()
                + " repository with name "@ + self.name@ + " [N/y] "@,
    {
        let mut m = String::from_str("Are you sure you want to create a ");
        m.append(self.visibility.as_str());
        m.append(" repository with name ");
        m.append(self.name.as_str());
        m.append(" [N/y] ");
        m
    }
}

/// One run for one request.
#[derive(Debug)]
pub struct Session {
    pub request: Repository,
    pub stage: Stage,
    /// The failure message, or the created repository's reference.
    pub detail: String,
}

impl Session {
    /// A session waiting for the user's answer.
    pub fn new(request: Repository) -> (r: Session)
        ensures
            r.request == request,
            r.stage == Stage::Confirming,
            r.detail@ == Seq::<char>::empty(),
    {
        Session { request, stage: Stage::Confirming, detail: String::new() }
    }

    /// Takes in what happened and says what to do next.
    pub fn step(&mut self, ev: Event) -> (a: Action)
        ensures
            (final(self).stage, a) == transition(old(self).stage, ev),
            final(self).detail@ == detail_after(old(self).stage, ev, old(self).detail@),
            final(self).request == old(self).request,
    {
        match (self.stage, ev) {
            (Stage::Confirming, Event::Answer(line)) => {
                if is_confirmation(line.as_str()) {
                    self.stage = Stage::Initializing;
                    Action::RunInit
                } else {
                    self.stage = Stage::Cancelled;
                    Action::Finish
                }
            },
            (Stage::Initializing, Event::Exited(out)) => {
                if out.success {
                    self.stage = Stage::Creating;
                    Action::RunCreate
                } else {
                    self.stage = Stage::InitFailed;
                    self.detail = explain(out.stderr.as_str(), "git init reported failure without a message");
                    Action::Finish
                }
            },
            (Stage::Initializing, Event::LaunchFailed(reason)) => {
                self.stage = Stage::InitFailed;
                self.detail = explain(reason.as_str(), "git init reported failure without a message");
                Action::Finish
            },
            (Stage::Creating, Event::Exited(out)) => {
                if out.success {
                    self.stage = Stage::Created;
                    self.detail = trimmed(out.stdout.as_str());
                } else {
                    self.stage = Stage::CreateFailed;
                    self.detail = explain(out.stderr.as_str(), "Unknown error");
                }
                Action::Finish
            },
            (Stage::Creating, Event::LaunchFailed(reason)) => {
                self.stage = Stage::CreateFailed;
                self.detail = explain(reason.as_str(), "Unknown error");
                Action::Finish
            },
            (Stage::Confirming, _) | (Stage::Initializing, _) | (Stage::Creating, _) => Action::Ignore,
            _ => Action::Finish,
        }
    }

    /// The failure that ended the session, if one did.
    pub fn error(&self) -> (r: Option<RepoError>)
        ensures
            match self.stage {
                Stage::InitFailed => r matches Some(RepoError::InitFailed(d)) && d@ == self.detail@,
                Stage::CreateFailed => r matches Some(RepoError::CreateFailed(d)) && d@
                    == self.detail@,
                _ => r is None,
            },
    {
        match self.stage {
            Stage::InitFailed => Some(RepoError::InitFailed(self.detail.clone())),
            Stage::CreateFailed => Some(RepoError::CreateFailed(self.detail.clone())),
            _ => None,
        }
    }

    /// The line to show when the session ended without failure.
    pub fn report(&self) -> (r: Option<String>)
        ensures
            match self.stage {
                Stage::Cancelled => r matches Some(m) && m@ == "Repository has NOT been created, have a good day o3o"@,
                Stage::Created => r matches Some(m) && m@ == "Repository "@ + self.request.name@
                    + " with visibility "@ + self.request.visibility.spec_word()
                    + " created successfully! -> "@ + self.detail@,
                _ => r is None,
            },
    {
        match self.stage {
            Stage::Cancelled => Some(
                String::from_str("Repository has NOT been created, have a good day o3o"),
            ),
            Stage::Created => {
                let mut m = String::from_str("Repository ");
                m.append(self.request.name.as_str());
                m.append(" with visibility ");
                m.append(self.request.visibility.as_str());
                m.append(" created successfully! -> ");
                m.append(self.detail.as_str());
                Some(m)
            },
            _ => None,
        }
    }
}

/// The trimmed text, or `fallback` where nothing is left of it.
fn explain(text: &str, fallback: &str) -> (r: String)
    ensures
        r@ == or_fallback(trim(text@), fallback@),
{
    let t = trimmed(text);
    if t.as_str().unicode_len() == 0 {
        String::from_str(fallback)
    } else {
        t
    }
}

} // verus!
