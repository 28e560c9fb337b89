//! The job executor's verdict on a finished child process: the command
//! line handed to the runner, and the classification of a non-successful
//! exit into the closed set of failure classes.

use vstd::prelude::*;
use vstd::string::StringExecFns;

use crate::numfmt::{dec_digits, dec_digits_signed, i32_to_string, u64_to_string};
use crate::results::JobError;

verus! {

/// How a non-successful child exit is classified. Signals take precedence:
/// SIGINT means a user interrupt, SIGABRT an allocation failure, SIGKILL an
/// exhausted cpu-time budget; exit code 101 is a panic, 102 an unsupported
/// combination. Nothing is classified when neither a signal nor a code is
/// reported.
pub open spec fn classify_exit_spec(signal: Option<i32>, code: Option<i32>) -> Option<JobError> {
    match signal {
        Some(s) => Some(
            if s == 2 {
                JobError::Interrupted
            } else if s == 6 {
                JobError::MemoryLimit
            } else if s == 9 {
                JobError::Timeout
            } else {
                JobError::Signal(s)
            },
        ),
        None => match code {
            Some(c) => Some(
                if c == 101 {
                    JobError::Panic
                } else if c == 102 {
                    JobError::Unsupported
                } else {
                    JobError::ExitCode(c)
                },
            ),
            None => None,
        },
    }
}

/// Classify a non-successful child exit. An exit that reports neither a
/// signal nor a code is an internal error of the platform and is excluded
/// by the precondition.
pub fn classify_failure(signal: Option<i32>, code: Option<i32>) -> (r: JobError)
    requires
        signal is Some || code is Some,
    ensures
        Some(r) == classify_exit_spec(signal, code),
{
    match signal {
        Some(s) => {
            if s == 2 {
                JobError::Interrupted
            } else if s == 6 {
                JobError::MemoryLimit
            } else if s == 9 {
                JobError::Timeout
            } else {
                JobError::Signal(s)
            }
        },
        None => {
            let c = code.unwrap();
            if c == 101 {
                JobError::Panic
            } else if c == 102 {
                JobError::Unsupported
            } else {
                JobError::ExitCode(c)
            }
        },
    }
}

/// The arguments passed to the runner child: the core to pin to, the
/// niceness (spelled with `=` so that a negative value stays one argument),
/// and the verbosity flag.
pub open spec fn runner_args_spec(core_id: Option<u64>, nice: Option<i32>, verbose: bool) -> Seq<
    Seq<char>,
> {
    let with_core = match core_id {
        Some(id) => seq!["--pin-core-id"@, dec_digits(id as nat)],
        None => Seq::<Seq<char>>::empty(),
    };
    let with_nice = match nice {
        Some(n) => with_core.push("--nice="@ + dec_digits_signed(n as int)),
        None => with_core,
    };
    if verbose {
        with_nice.push("--verbose"@)
    } else {
        with_nice
    }
}

/// The view of a list of argument strings.
pub open spec fn args_view(s: Seq<String>) -> Seq<Seq<char>> {
    s.map_values(|a: String| a@)
}

/// Build the runner's argument list.
pub fn runner_args(core_id: Option<u64>, nice: Option<i32>, verbose: bool) -> (r: Vec<String>)
    ensures
        args_view(r@) == runner_args_spec(core_id, nice, verbose),
{
    let mut args: Vec<String> = Vec::new();
    if let Some(id) = core_id {
        args.push(("--pin-core-id").to_owned());
        args.push(u64_to_string(id));
    }
    if let Some(n) = nice {
        let mut a: String = ("--nice=").to_owned();
        a.append(i32_to_string(n).as_str());
        args.push(a);
    }
    if verbose {
        args.push(("--verbose").to_owned());
    }
    assert(args_view(args@) =~= runner_args_spec(core_id, nice, verbose));
    args
}

} // verus!
