use rocket_launch::event::WatchEvent;
use rocket_launch::session::{Action, ExitReason, Input, Phase, Session};

fn write(p: &str) -> Input {
    Input::Changed(WatchEvent::Write(p.to_string()))
}

fn started() -> Session {
    let mut s = Session::new();
    assert_eq!(s.step(Input::PathChecked(true)), Action::Validate);
    assert_eq!(s.step(Input::CheckFinished(true)), Action::WatchAndLaunch);
    assert_eq!(s.phase(), Phase::Running);
    s
}

#[test]
fn missing_project_path_exits_before_anything_else() {
    let mut s = Session::new();
    assert_eq!(s.phase(), Phase::CheckingPath);
    assert_eq!(s.step(Input::PathChecked(false)), Action::Exit(ExitReason::NotADirectory, 1));
    assert_eq!(s.phase(), Phase::Exited);
    assert_eq!(s.step(Input::CheckFinished(true)), Action::Nothing);
    assert_eq!(s.step(write("src/main.rs")), Action::Nothing);
}

#[test]
fn failed_startup_check_exits_without_launching() {
    let mut s = Session::new();
    assert_eq!(s.step(Input::PathChecked(true)), Action::Validate);
    assert_eq!(s.step(Input::CheckFinished(false)), Action::Exit(ExitReason::CheckFailed, 1));
    assert_eq!(s.phase(), Phase::Exited);
    assert_eq!(s.step(write("src/main.rs")), Action::Nothing);
    assert_eq!(s.step(Input::CheckFinished(true)), Action::Nothing);
}

#[test]
fn each_validated_change_restarts_once() {
    let mut s = started();
    let mut launched = 1;
    let mut killed = 0;
    for p in ["src/main.rs", "Cargo.toml", "templates/a.hbs"] {
        assert_eq!(s.step(write(p)), Action::Validate);
        assert_eq!(s.phase(), Phase::Rechecking);
        assert_eq!(s.step(Input::CheckFinished(true)), Action::Restart);
        killed += 1;
        assert_eq!(launched - killed, 0);
        launched += 1;
        assert_eq!(s.phase(), Phase::Running);
    }
    assert_eq!(launched, 4);
    assert_eq!(killed, 3);
}

#[test]
fn failed_recheck_keeps_the_running_child() {
    let mut s = started();
    assert_eq!(s.step(write("src/main.rs")), Action::Validate);
    assert_eq!(s.step(Input::CheckFinished(false)), Action::Nothing);
    assert_eq!(s.phase(), Phase::Running);
}

#[test]
fn irrelevant_change_does_nothing() {
    let mut s = started();
    assert_eq!(s.step(write("README.md")), Action::Nothing);
    assert_eq!(s.step(Input::Changed(WatchEvent::Rescan)), Action::Nothing);
    assert_eq!(s.phase(), Phase::Running);
}

#[test]
fn stream_error_is_reported_and_loop_goes_on() {
    let mut s = started();
    assert_eq!(s.step(Input::StreamError), Action::ReportStreamError);
    assert_eq!(s.phase(), Phase::Running);
    assert_eq!(s.step(write("src/main.rs")), Action::Validate);
}

#[test]
fn one_coalesced_write_gives_one_cycle() {
    let mut s = started();
    assert_eq!(s.step(write("src/main.rs")), Action::Validate);
    assert_eq!(s.step(Input::CheckFinished(true)), Action::Restart);
    assert_eq!(s.step(Input::CheckFinished(true)), Action::Nothing);
    assert_eq!(s.phase(), Phase::Running);
}

#[test]
fn rename_events_drive_the_session() {
    let mut s = started();
    let ren = |a: &str, b: &str| Input::Changed(WatchEvent::Rename(a.to_string(), b.to_string()));
    assert_eq!(s.step(ren("a.txt", "b.txt")), Action::Nothing);
    assert_eq!(s.step(ren("a.txt", "b.rs")), Action::Validate);
}
