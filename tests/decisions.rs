use waybar_autohide::{
    advance, decide, payload_argument, Action, Config, Coordinate, Failure, Report, Step, Task,
};

fn at(y_floor: i64, y_fraction: bool) -> Coordinate {
    Coordinate { y_floor, y_fraction }
}

#[test]
fn standard_config_values() {
    let c = Config::standard();
    assert_eq!(c.show_threshold, 10);
    assert_eq!(c.hide_threshold, 100);
    assert_eq!(c.companion, "waybar");
    assert_eq!(c.state_path, "/home/nicholas/.waybar_is_running");
}

#[test]
fn config_rejects_empty_dead_zone() {
    assert!(Config::new("/tmp/m".to_string(), "bar".to_string(), 10, 10).is_none());
    assert!(Config::new("/tmp/m".to_string(), "bar".to_string(), 20, 10).is_none());
    let c = Config::new("/tmp/m".to_string(), "bar".to_string(), 5, 6).unwrap();
    assert_eq!(c.show_threshold, 5);
    assert_eq!(c.hide_threshold, 6);
    assert_eq!(c.state_path, "/tmp/m");
    assert_eq!(c.companion, "bar");
}

#[test]
fn thresholds_are_inclusive() {
    let c = Config::standard();
    assert_eq!(decide(&c, false, &at(10, false)), Action::Show);
    assert_eq!(decide(&c, false, &at(10, true)), Action::Keep);
    assert_eq!(decide(&c, false, &at(9, true)), Action::Show);
    assert_eq!(decide(&c, false, &at(-3, true)), Action::Show);
    assert_eq!(decide(&c, true, &at(100, false)), Action::Hide);
    assert_eq!(decide(&c, true, &at(99, true)), Action::Keep);
    assert_eq!(decide(&c, true, &at(0, false)), Action::Keep);
    assert_eq!(decide(&c, false, &at(150, false)), Action::Keep);
}

#[test]
fn step_machine_show_path() {
    let c = Config::standard();
    let p = at(2, false);
    assert_eq!(advance(&c, &p, Task::ProbeMarker, Report::Marker(false)), Step::Perform(Task::Launch));
    assert_eq!(advance(&c, &p, Task::Launch, Report::Done), Step::Perform(Task::SetMarker));
    assert_eq!(advance(&c, &p, Task::Launch, Report::Failed), Step::Abort(Failure::LaunchFailure));
    assert_eq!(advance(&c, &p, Task::SetMarker, Report::Done), Step::Finish(Action::Show));
    assert_eq!(
        advance(&c, &p, Task::SetMarker, Report::Failed),
        Step::Abort(Failure::MarkerWriteFailure)
    );
}

#[test]
fn step_machine_hide_path() {
    let c = Config::standard();
    let p = at(150, false);
    assert_eq!(advance(&c, &p, Task::ProbeMarker, Report::Marker(true)), Step::Perform(Task::Discover));
    assert_eq!(advance(&c, &p, Task::Discover, Report::Found(true)), Step::Perform(Task::Terminate));
    assert_eq!(advance(&c, &p, Task::Discover, Report::Found(false)), Step::Perform(Task::ClearMarker));
    assert_eq!(advance(&c, &p, Task::Terminate, Report::Done), Step::Perform(Task::ClearMarker));
    assert_eq!(
        advance(&c, &p, Task::Terminate, Report::Failed),
        Step::Abort(Failure::ProcessKillFailure)
    );
    assert_eq!(advance(&c, &p, Task::ClearMarker, Report::Done), Step::Finish(Action::Hide));
    assert_eq!(
        advance(&c, &p, Task::ClearMarker, Report::Failed),
        Step::Abort(Failure::MarkerDeleteFailure)
    );
}

#[test]
fn step_machine_probe() {
    let c = Config::standard();
    assert_eq!(
        advance(&c, &at(50, false), Task::ProbeMarker, Report::Marker(false)),
        Step::Finish(Action::Keep)
    );
    assert_eq!(
        advance(&c, &at(2, false), Task::ProbeMarker, Report::Failed),
        Step::Abort(Failure::StateProbeFailure)
    );
}

#[test]
fn payload_is_first_argument_after_program() {
    let args = vec!["prog".to_string(), "{\"x\":0,\"y\":2.0}".to_string(), "extra".to_string()];
    assert_eq!(payload_argument(args), Ok("{\"x\":0,\"y\":2.0}".to_string()));
}

#[test]
fn missing_payload_is_reported() {
    assert_eq!(payload_argument(vec!["prog".to_string()]), Err(Failure::MissingArgument));
    assert_eq!(payload_argument(vec![]), Err(Failure::MissingArgument));
}

#[test]
fn failures_have_distinct_nonzero_codes() {
    let all = [
        Failure::MissingArgument,
        Failure::MalformedPayload,
        Failure::StateProbeFailure,
        Failure::ProcessKillFailure,
        Failure::MarkerWriteFailure,
        Failure::MarkerDeleteFailure,
        Failure::LaunchFailure,
    ];
    let codes: Vec<i32> = all.iter().map(|f| f.exit_code()).collect();
    assert_eq!(codes, vec![2, 3, 4, 5, 6, 7, 8]);
    assert_eq!(Failure::MalformedPayload.message(), "expected an argument of the form '{\"x\": 123.456, \"y\": 789.012}'");
    assert_eq!(Failure::ProcessKillFailure.message(), "failed to terminate the companion process");
}
