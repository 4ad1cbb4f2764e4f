use v2x::sumo::{
    after_failed_connect, run_outcome, sumo_launch_arguments, ConnectStep, LaunchError,
    RunFailure, SumoBinary, CONNECT_RETRY_DELAY_MS,
};
use v2x::text::decimal_string;

#[test]
fn command_names() {
    assert_eq!(SumoBinary::Sumo.command_name(), "sumo");
    assert_eq!(SumoBinary::SumoGui.command_name(), "sumo-gui");
}

#[test]
fn launch_arguments() {
    let args = sumo_launch_arguments(Some("osm.sumocfg"), 8813, "0.1", 100, true).unwrap();
    assert_eq!(
        args,
        vec![
            "-c", "osm.sumocfg", "--remote-port", "8813", "--step-length", "0.1", "--delay",
            "100", "--start"
        ]
    );
    let args = sumo_launch_arguments(Some("a b.cfg"), 0, "1", 0, false).unwrap();
    assert_eq!(args, vec!["-c", "a b.cfg", "--remote-port", "0", "--step-length", "1", "--delay", "0"]);
}

#[test]
fn launching_needs_a_scenario() {
    let err = sumo_launch_arguments(None, 8813, "0.1", 100, true).unwrap_err();
    assert_eq!(err, LaunchError::MissingScenario);
    assert_eq!(err.message(), "--scenario is required when --launch-sumo=true");
}

#[test]
fn connecting_retries_until_the_timeout() {
    let timeout_ns: u128 = 15_000_000_000;
    assert_eq!(after_failed_connect(0, timeout_ns), ConnectStep::RetryAfterMillis(CONNECT_RETRY_DELAY_MS));
    assert_eq!(after_failed_connect(timeout_ns - 1, timeout_ns), ConnectStep::RetryAfterMillis(200));
    assert_eq!(after_failed_connect(timeout_ns, timeout_ns), ConnectStep::GiveUp);
    assert_eq!(after_failed_connect(20_000_000_000, timeout_ns), ConnectStep::GiveUp);
    // Part of a millisecond counts.
    assert_eq!(after_failed_connect(1_000_200, 1_000_500), ConnectStep::RetryAfterMillis(200));
}

#[test]
fn run_outcomes() {
    assert!(run_outcome::<&str>(Ok(()), Ok(())).is_ok());
    assert!(matches!(run_outcome(Err("step"), Ok(())), Err(RunFailure::Simulation("step"))));
    assert!(matches!(run_outcome(Ok(()), Err("close")), Err(RunFailure::Close("close"))));
    assert!(matches!(
        run_outcome(Err("step"), Err("close")),
        Err(RunFailure::Both { simulation: "step", close: "close" })
    ));
}

#[test]
fn decimal_numerals() {
    assert_eq!(decimal_string(0), "0");
    assert_eq!(decimal_string(7), "7");
    assert_eq!(decimal_string(10), "10");
    assert_eq!(decimal_string(8813), "8813");
    assert_eq!(decimal_string(u64::MAX), u64::MAX.to_string());
}
