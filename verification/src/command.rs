//! The parsed command, the executor's dispatch on it, and the description
//! of everything an invocation displays and the status it exits with.

use vstd::prelude::*;
use crate::diag::{ErrorArgs, error_lines, report_for, resolve_position};
use crate::update::{Speed, UpdatePlan, build_update_plan, plan_for, speed_error_line};

verus! {

/// One invocation's intent: run the progress animation, or print the
/// mock error report.
#[derive(Debug)]
pub enum Command {
    Update { speed: Speed },
    Error { args: ErrorArgs },
}

/// What an invocation does, described in full: animate and exit 0,
/// reject the speed with one line on standard error and exit 1, or
/// print the five report lines and exit 0.
#[derive(Debug)]
pub enum Execution {
    Animate(UpdatePlan),
    Reject(String),
    Report(Vec<String>),
}

impl Execution {
    /// The process status for this outcome: 1 for a rejected speed,
    /// 0 otherwise.
    pub fn exit_code(&self) -> (c: i32)
        ensures
            c == (if self is Reject {
                1int
            } else {
                0int
            }),
    {
        match self {
            Execution::Reject(_) => 1,
            _ => 0,
        }
    }
}

/// `e` is the right outcome for an update at `speed`: the full animation
/// plan where the speed is positive, the rejection line where it is not.
pub open spec fn update_outcome(e: Execution, speed: Speed) -> bool {
    if speed.positive {
        e matches Execution::Animate(plan) && plan_for(plan, speed)
    } else {
        e matches Execution::Reject(m) && m@ == speed_error_line()
    }
}

/// `e` is the right outcome for an error report with fields `args`: the
/// five lines, formatted around a position that equals the supplied one
/// exactly, or, where none was supplied, lies in `[1, 200)`.
pub open spec fn report_outcome(e: Execution, args: ErrorArgs) -> bool {
    e matches Execution::Report(lines) && {
        &&& args.pos matches Option::Some(p) ==> report_for(
            lines@,
            args.module@,
            args.file@,
            args.suggestion@,
            p as nat,
            args.code@,
        )
        &&& args.pos is None ==> exists|p: u32|
            1 <= p < 200 && #[trigger] report_for(
                lines@,
                args.module@,
                args.file@,
                args.suggestion@,
                p as nat,
                args.code@,
            )
    }
}

/// Law: among update outcomes, the rejection is exactly the outcome for a
/// non-positive speed; a positive speed animates, and so never carries the
/// failure status that `exit_code` gives rejections alone.
pub proof fn lemma_update_exit_status(e: Execution, speed: Speed)
    requires
        update_outcome(e, speed),
    ensures
        (e is Reject) == !speed.positive,
{
}

/// Law: every error-report outcome is a report of exactly five lines,
/// whatever position was resolved.
pub proof fn lemma_report_five_lines(e: Execution, args: ErrorArgs)
    requires
        report_outcome(e, args),
    ensures
        e is Report,
        e matches Execution::Report(lines) ==> lines@.len() == 5,
{
    match e {
        Execution::Report(lines) => {
            if args.pos is None {
                let p = choose|p: u32|
                    1 <= p < 200 && #[trigger] report_for(
                        lines@,
                        args.module@,
                        args.file@,
                        args.suggestion@,
                        p as nat,
                        args.code@,
                    );
                assert(lines@.len() == 5);
            }
        },
        _ => {
        },
    }
}

/// Dispatches on the command. An update with positive speed yields the
/// full animation plan; any other update yields the rejection line. An
/// error command yields the five report lines, with a supplied position
/// kept exactly and an absent one drawn from `[1, 200)`.
pub fn execute(cmd: Command) -> (e: Execution)
    ensures
        cmd matches Command::Update { speed } ==> update_outcome(e, speed),
        cmd matches Command::Error { args } ==> report_outcome(e, args),
{
    match cmd {
        Command::Update { speed } => match build_update_plan(&speed) {
            Result::Ok(plan) => Execution::Animate(plan),
            Result::Err(m) => Execution::Reject(m),
        },
        Command::Error { args } => {
            let pos = resolve_position(args.pos);
            let lines = error_lines(
                args.module.as_str(),
                args.file.as_str(),
                args.suggestion.as_str(),
                pos,
                args.code.as_str(),
            );
            let e = Execution::Report(lines);
            proof {
                if args.pos is None {
                    assert(e matches Execution::Report(l) && 1 <= pos < 200 && report_for(
                        l@,
                        args.module@,
                        args.file@,
                        args.suggestion@,
                        pos as nat,
                        args.code@,
                    ));
                }
                assert(report_outcome(e, args));
            }
            e
        },
    }
}

} // verus!
