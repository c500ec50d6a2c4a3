//! The update command: the fixed 101-step animation plan, its messages,
//! and the rejection of a non-positive speed.

use vstd::prelude::*;
use crate::text::{append_str, dec_str, u32_to_string};

verus! {

/// What the animation reads of the speed argument. The speed itself is a
/// floating-point multiplier, which this crate does not hold; the caller
/// supplies the three facts derived from it: whether it is positive, the
/// per-step delay `50 / speed` in whole milliseconds (fraction truncated),
/// and the reported total `5 / speed` rounded to whole seconds.
#[derive(Debug)]
pub struct Speed {
    pub positive: bool,
    pub delay_ms: u64,
    pub total_secs: u32,
}

/// Everything the animation displays: the positions of the 101 steps in
/// order, the pause after each step, and the three messages around it.
#[derive(Debug)]
pub struct UpdatePlan {
    pub positions: Vec<u64>,
    pub delay_ms: u64,
    pub start_message: String,
    pub finish_message: String,
    pub summary_line: String,
}

/// The message shown while the animation runs.
pub open spec fn updating_message() -> Seq<char> {
    "==> Updating datalab"@
}

/// The message that replaces the bar on completion.
pub open spec fn completed_message() -> Seq<char> {
    "==> Update completed"@
}

/// The summary printed after the animation, for a reported total of
/// `total_secs` seconds.
pub open spec fn summary_line_for(total_secs: nat) -> Seq<char> {
    "[INFO]: Completed in "@ + dec_str(total_secs) + "s"@
}

/// The line printed to standard error when the speed is not positive.
pub open spec fn speed_error_line() -> Seq<char> {
    "[ERROR]: Speed must be greater than 0"@
}

/// `plan` is the full animation for `speed`: 101 steps through positions
/// 0 to 100 inclusive, the given per-step delay, and the fixed messages
/// with the reported total.
pub open spec fn plan_for(plan: UpdatePlan, speed: Speed) -> bool {
    &&& plan.positions@.len() == 101
    &&& (forall|i: int| 0 <= i < 101 ==> plan.positions@[i] == i)
    &&& plan.delay_ms == speed.delay_ms
    &&& plan.start_message@ == updating_message()
    &&& plan.finish_message@ == completed_message()
    &&& plan.summary_line@ == summary_line_for(speed.total_secs as nat)
}

/// The positions of the animation's steps: 0 through 100 inclusive.
pub fn animation_positions() -> (v: Vec<u64>)
    ensures
        v@.len() == 101,
        forall|i: int| 0 <= i < 101 ==> v@[i] == i,
{
    let mut v: Vec<u64> = Vec::new();
    let mut i: u64 = 0;
    while i <= 100
        invariant
            i <= 101,
            v@.len() == i,
            forall|j: int| 0 <= j < i ==> v@[j] == j,
        decreases 101 - i,
    {
        v.push(i);
        i = i + 1;
    }
    v
}

/// The summary line for a reported total of `total_secs` seconds.
pub fn summary_line(total_secs: u32) -> (s: String)
    ensures
        s@ == summary_line_for(total_secs as nat),
{
    let mut s = String::new();
    append_str(&mut s, "[INFO]: Completed in ");
    let rendered = u32_to_string(total_secs);
    append_str(&mut s, rendered.as_str());
    append_str(&mut s, "s");
    proof {
        assert(s@ =~= summary_line_for(total_secs as nat));
    }
    s
}

/// Lays out the whole animation for a positive speed; for any other speed
/// it returns the error line instead, and nothing is to be displayed.
pub fn build_update_plan(speed: &Speed) -> (r: Result<UpdatePlan, String>)
    ensures
        speed.positive ==> (r matches Result::Ok(plan) && plan_for(plan, *speed)),
        !speed.positive ==> (r matches Result::Err(m) && m@ == speed_error_line()),
{
    if !speed.positive {
        return Result::Err("[ERROR]: Speed must be greater than 0".to_owned());
    }
    Result::Ok(
        UpdatePlan {
            positions: animation_positions(),
            delay_ms: speed.delay_ms,
            start_message: "==> Updating datalab".to_owned(),
            finish_message: "==> Update completed".to_owned(),
            summary_line: summary_line(speed.total_secs),
        },
    )
}

} // verus!
