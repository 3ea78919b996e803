use repo_init::error::{RepoError, Tool};
use repo_init::probe::check;
use repo_init::request::build_request;
use repo_init::session::{is_confirmation, Action, Event, Session, Stage, ToolOutput};

fn output(success: bool, stdout: &str, stderr: &str) -> Event {
    Event::Exited(ToolOutput {
        success,
        stdout: stdout.to_string(),
        stderr: stderr.to_string(),
    })
}

fn session(dir: &str) -> Session {
    Session::new(build_request(&Vec::new(), dir).unwrap())
}

#[test]
fn answers_that_confirm() {
    for line in ["Y", "yes", "y\n", "Yes please"] {
        assert!(is_confirmation(line), "{:?}", line);
    }
}

#[test]
fn answers_that_decline() {
    for line in ["", "n", "no", "x", " y", "\n"] {
        assert!(!is_confirmation(line), "{:?}", line);
    }
}

#[test]
fn declining_cancels_without_running_tools() {
    for line in ["", "n", "no", "x"] {
        let mut s = session("myrepo");
        assert_eq!(s.step(Event::Answer(line.to_string())), Action::Finish);
        assert_eq!(s.stage, Stage::Cancelled);
        assert!(s.error().is_none());
        assert_eq!(
            s.report().unwrap(),
            "Repository has NOT been created, have a good day o3o"
        );
        // Later events change nothing and ask for no tool.
        assert_eq!(s.step(output(true, "", "")), Action::Finish);
        assert_eq!(s.stage, Stage::Cancelled);
    }
}

#[test]
fn confirming_asks_for_init() {
    for line in ["Y", "yes", "y\n"] {
        let mut s = session("myrepo");
        assert_eq!(s.step(Event::Answer(line.to_string())), Action::RunInit);
        assert_eq!(s.stage, Stage::Initializing);
    }
}

#[test]
fn init_failure_stops_before_create() {
    let mut s = session("myrepo");
    s.step(Event::Answer("y".to_string()));
    assert_eq!(s.step(output(false, "", "  fatal: not allowed \n")), Action::Finish);
    assert_eq!(s.stage, Stage::InitFailed);
    assert_eq!(s.error(), Some(RepoError::InitFailed("fatal: not allowed".to_string())));
    assert_eq!(
        s.error().unwrap().message(),
        "Git init failed: fatal: not allowed"
    );
    assert_eq!(s.step(output(true, "", "")), Action::Finish);
    assert_eq!(s.stage, Stage::InitFailed);
}

#[test]
fn init_failure_without_stderr_still_explains() {
    let mut s = session("myrepo");
    s.step(Event::Answer("y".to_string()));
    s.step(output(false, "", " \n\t"));
    assert_eq!(
        s.error(),
        Some(RepoError::InitFailed(
            "git init reported failure without a message".to_string()
        ))
    );
}

#[test]
fn init_launch_failure() {
    let mut s = session("myrepo");
    s.step(Event::Answer("y".to_string()));
    assert_eq!(
        s.step(Event::LaunchFailed("No such file or directory".to_string())),
        Action::Finish
    );
    assert_eq!(
        s.error(),
        Some(RepoError::InitFailed("No such file or directory".to_string()))
    );
}

#[test]
fn create_failure_reports_stderr_text() {
    let mut s = session("myrepo");
    s.step(Event::Answer("y".to_string()));
    assert_eq!(s.step(output(true, "", "")), Action::RunCreate);
    assert_eq!(s.stage, Stage::Creating);
    assert_eq!(s.step(output(false, "", "name already exists\n")), Action::Finish);
    assert_eq!(
        s.error(),
        Some(RepoError::CreateFailed("name already exists".to_string()))
    );
    assert_eq!(
        s.error().unwrap().message(),
        "Failed to create repository: name already exists"
    );
}

#[test]
fn create_failure_without_stderr_is_unknown_error() {
    let mut s = session("myrepo");
    s.step(Event::Answer("y".to_string()));
    s.step(output(true, "", ""));
    s.step(output(false, "ignored", ""));
    assert_eq!(s.error(), Some(RepoError::CreateFailed("Unknown error".to_string())));
}

#[test]
fn create_launch_failure_without_reason_is_unknown_error() {
    let mut s = session("myrepo");
    s.step(Event::Answer("y".to_string()));
    s.step(output(true, "", ""));
    s.step(Event::LaunchFailed(String::new()));
    assert_eq!(s.stage, Stage::CreateFailed);
    assert_eq!(s.error(), Some(RepoError::CreateFailed("Unknown error".to_string())));
}

#[test]
fn end_to_end_success() {
    let mut s = session("myrepo");
    assert_eq!(s.step(Event::Answer("y".to_string())), Action::RunInit);
    assert_eq!(s.step(output(true, "Initialized empty Git repository", "")), Action::RunCreate);
    assert_eq!(
        s.request.create_args(),
        vec!["repo", "create", "myrepo", "--source=.", "--private"]
    );
    assert_eq!(s.step(output(true, "https://example.com/u/myrepo\n", "")), Action::Finish);
    assert_eq!(s.stage, Stage::Created);
    assert!(s.error().is_none());
    let line = s.report().unwrap();
    assert!(line.contains("myrepo"));
    assert!(line.contains("private"));
    assert!(line.contains("https://example.com/u/myrepo"));
    assert_eq!(
        line,
        "Repository myrepo with visibility private created successfully! -> https://example.com/u/myrepo"
    );
}

#[test]
fn events_out_of_order_are_ignored() {
    let mut s = session("myrepo");
    assert_eq!(s.step(output(true, "", "")), Action::Ignore);
    assert_eq!(s.stage, Stage::Confirming);
    s.step(Event::Answer("y".to_string()));
    assert_eq!(s.step(Event::Answer("y".to_string())), Action::Ignore);
    assert_eq!(s.stage, Stage::Initializing);
}

#[test]
fn probe_verdicts() {
    assert_eq!(check(Tool::Git, true), Ok(()));
    assert_eq!(check(Tool::Git, false), Err(RepoError::ToolMissing(Tool::Git)));
    assert_eq!(check(Tool::Gh, false), Err(RepoError::ToolMissing(Tool::Gh)));
    assert_eq!(
        RepoError::ToolMissing(Tool::Git).message(),
        "Git is not installed!"
    );
    assert_eq!(
        RepoError::ToolMissing(Tool::Gh).message(),
        "GH CLI is not installed!"
    );
    assert_eq!(Tool::Git.command(), "git");
    assert_eq!(Tool::Gh.command(), "gh");
    assert_eq!(Tool::Git.probe_args(), vec!["help"]);
    assert_eq!(Tool::Gh.probe_args(), vec!["--version"]);
}
