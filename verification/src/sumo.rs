//! Launching, connecting to and running a SUMO simulation: the decisions, with the process
//! and network work left to the caller.
use vstd::prelude::*;

use crate::text::{decimal, push_decimal};

verus! {

/// SUMO executable choice used when launching SUMO from this process.
#[derive(Debug, Clone, Copy, PartialEq, Eq, Hash, Structural)]
pub enum SumoBinary {
    /// Launch the headless `sumo` binary.
    Sumo,
    /// Launch the GUI-enabled `sumo-gui` binary.
    SumoGui,
}

/// The command that launches a SUMO binary.
pub open spec fn sumo_command(binary: SumoBinary) -> Seq<char> {
    match binary {
        SumoBinary::Sumo => "sumo"@,
        SumoBinary::SumoGui => "sumo-gui"@,
    }
}

impl SumoBinary {
    /// Returns the command name expected to be available in `PATH`.
    pub fn command_name(self) -> (name: &'static str)
        ensures
            name@ == sumo_command(self),
    {
        match self {
            SumoBinary::Sumo => "sumo",
            SumoBinary::SumoGui => "sumo-gui",
        }
    }
}

/// Why SUMO could not be launched.
#[derive(Debug, Clone, Copy, PartialEq, Eq, Structural)]
pub enum LaunchError {
    /// No scenario file was given.
    MissingScenario,
}

impl LaunchError {
    /// The human-readable description of this error.
    pub fn message(&self) -> (m: String)
        ensures
            m@ == "--scenario is required when --launch-sumo=true"@,
    {
        String::from_str("--scenario is required when --launch-sumo=true")
    }
}

/// The arguments SUMO is launched with: the scenario, the TraCI port, the step length, the
/// GUI delay, and `--start` when the simulation is to start at once.
pub open spec fn spec_sumo_arguments(
    scenario: Seq<char>,
    port: u16,
    step_length: Seq<char>,
    delay_ms: u32,
    start: bool,
) -> Seq<Seq<char>> {
    let base = seq![
        "-c"@,
        scenario,
        "--remote-port"@,
        decimal(port as nat),
        "--step-length"@,
        step_length,
        "--delay"@,
        decimal(delay_ms as nat),
    ];
    if start {
        base.push("--start"@)
    } else {
        base
    }
}

/// The text of each string.
pub open spec fn texts(strings: Seq<String>) -> Seq<Seq<char>> {
    strings.map_values(|s: String| s@)
}

/// The arguments SUMO is launched with, or `MissingScenario` when there is no scenario.
/// `step_length` is the step length in seconds as it is to be written.
pub fn sumo_launch_arguments(
    scenario: Option<&str>,
    port: u16,
    step_length: &str,
    delay_ms: u32,
    start: bool,
) -> (r: Result<Vec<String>, LaunchError>)
    ensures
        match scenario {
            None => r == Err::<Vec<String>, LaunchError>(LaunchError::MissingScenario),
            Some(s) => r matches Ok(args) && texts(args@) == spec_sumo_arguments(s@, port, step_length@, delay_ms, start),
        },
{
    let scenario = match scenario {
        Some(s) => s,
        None => {
            return Err(LaunchError::MissingScenario);
        },
    };
    let mut args: Vec<String> = Vec::new();
    args.push(String::from_str("-c"));
    args.push(String::from_str(scenario));
    args.push(String::from_str("--remote-port"));
    let mut port_text = String::new();
    push_decimal(&mut port_text, port as u64);
    args.push(port_text);
    args.push(String::from_str("--step-length"));
    args.push(String::from_str(step_length));
    args.push(String::from_str("--delay"));
    let mut delay_text = String::new();
    push_decimal(&mut delay_text, delay_ms as u64);
    args.push(delay_text);
    if start {
        args.push(String::from_str("--start"));
    }
    proof {
        assert(texts(args@) =~= spec_sumo_arguments(scenario@, port, step_length@, delay_ms, start));
    }
    Ok(args)
}

/// Milliseconds to wait before the next attempt to reach TraCI.
pub const CONNECT_RETRY_DELAY_MS: u64 = 200;

/// What to do after an attempt to connect to TraCI failed.
#[derive(Debug, Clone, Copy, PartialEq, Eq, Structural)]
pub enum ConnectStep {
    /// The timeout has passed: report the failure.
    GiveUp,
    /// Wait this many milliseconds and try again.
    RetryAfterMillis(u64),
}

/// After a failed attempt, `elapsed_ns` nanoseconds after the first one began: give up once
/// the timeout of `timeout_ns` nanoseconds has passed, else wait and retry.
pub fn after_failed_connect(elapsed_ns: u128, timeout_ns: u128) -> (step: ConnectStep)
    ensures
        step == (if elapsed_ns >= timeout_ns {
            ConnectStep::GiveUp
        } else {
            ConnectStep::RetryAfterMillis(CONNECT_RETRY_DELAY_MS)
        }),
{
    if elapsed_ns >= timeout_ns {
        ConnectStep::GiveUp
    } else {
        ConnectStep::RetryAfterMillis(CONNECT_RETRY_DELAY_MS)
    }
}

/// How a simulation run ended in failure: while stepping, while closing the TraCI
/// connection, or both.
#[derive(Debug, PartialEq, Eq)]
pub enum RunFailure<E> {
    Simulation(E),
    Close(E),
    Both { simulation: E, close: E },
}

/// The outcome of a run from the outcome of the simulation loop and that of closing the
/// connection, which is closed whatever the loop's outcome.
pub open spec fn spec_run_outcome<E>(simulation: Result<(), E>, close: Result<(), E>) -> Result<(), RunFailure<E>> {
    match (simulation, close) {
        (Ok(()), Ok(())) => Ok(()),
        (Err(s), Ok(())) => Err(RunFailure::Simulation(s)),
        (Ok(()), Err(c)) => Err(RunFailure::Close(c)),
        (Err(s), Err(c)) => Err(RunFailure::Both { simulation: s, close: c }),
    }
}

/// The outcome of a run from the outcome of the simulation loop and that of closing the
/// connection.
pub fn run_outcome<E>(simulation: Result<(), E>, close: Result<(), E>) -> (r: Result<(), RunFailure<E>>)
    ensures
        r == spec_run_outcome(simulation, close),
{
    match (simulation, close) {
        (Ok(()), Ok(())) => Ok(()),
        (Err(s), Ok(())) => Err(RunFailure::Simulation(s)),
        (Ok(()), Err(c)) => Err(RunFailure::Close(c)),
        (Err(s), Err(c)) => Err(RunFailure::Both { simulation: s, close: c }),
    }
}

} // verus!
