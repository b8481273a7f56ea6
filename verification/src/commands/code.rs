//! What a code submission reports back: events, test-case selection and
//! the feedback line for every outcome.

use vstd::prelude::*;
use vstd::string::*;

use crate::levels::loader::TestCase;
use crate::strutil::{dec_rep, u64_to_dec, usize_to_dec};

verus! {

/// Announcement that a level was completed, with what it newly
/// unlocked.
#[derive(Debug, Clone)]
pub struct LevelCompleteEvent {
    pub level_id: String,
    pub xp_earned: u32,
    pub next_level_id: Option<String>,
    pub newly_unlocked: Vec<String>,
}

/// Announcement that a quest was completed.
#[derive(Debug, Clone)]
pub struct QuestCompleteEvent {
    pub level_id: String,
    pub quest_id: String,
    pub xp_earned: u32,
    pub quests_remaining: usize,
}

/// The indices of the cases a run with the given try flag uses, among
/// the first `n` cases, in ascending order.
pub open spec fn spec_selected_indices(cases: Seq<TestCase>, test_only: bool, n: int) -> Seq<usize>
    decreases n,
{
    if n <= 0 {
        Seq::empty()
    } else if !test_only || cases[n - 1].sample {
        spec_selected_indices(cases, test_only, n - 1).push((n - 1) as usize)
    } else {
        spec_selected_indices(cases, test_only, n - 1)
    }
}

/// The indices of the test cases one run uses: the sample cases alone
/// for a try run, every case for a submission.
pub fn selected_case_indices(cases: &Vec<TestCase>, test_only: bool) -> (r: Vec<usize>)
    ensures
        r@ == spec_selected_indices(cases@, test_only, cases@.len() as int),
{
    let mut out: Vec<usize> = Vec::new();
    let mut i: usize = 0;
    proof {
        assert(out@ =~= spec_selected_indices(cases@, test_only, 0));
    }
    while i < cases.len()
        invariant
            i <= cases@.len(),
            out@ == spec_selected_indices(cases@, test_only, i as int),
        decreases cases@.len() - i,
    {
        if !test_only || cases[i].sample {
            out.push(i);
        }
        i = i + 1;
    }
    out
}

/// The feedback line for a legacy whole-program submission.
pub open spec fn spec_legacy_feedback(
    compile_failed: bool,
    timed_out: bool,
    success: bool,
    xp_earned: u32,
) -> Seq<char> {
    if compile_failed {
        "Code failed to compile. Check for syntax errors."@
    } else if timed_out {
        "Code execution timed out. Check for infinite loops."@
    } else if success && xp_earned > 0 {
        "Success! +"@ + dec_rep(xp_earned as nat) + " XP! Doors have been unlocked!"@
    } else if success {
        "Success! Doors have been unlocked! (Level already completed)"@
    } else {
        "Output doesn't match expected result. Try again!"@
    }
}

/// Build the feedback line for a legacy whole-program submission.
pub fn legacy_feedback(compile_failed: bool, timed_out: bool, success: bool, xp_earned: u32) -> (r:
    String)
    ensures
        r@ == spec_legacy_feedback(compile_failed, timed_out, success, xp_earned),
{
    if compile_failed {
        "Code failed to compile. Check for syntax errors.".to_owned()
    } else if timed_out {
        "Code execution timed out. Check for infinite loops.".to_owned()
    } else if success && xp_earned > 0 {
        let mut out = "Success! +".to_owned();
        let digits = u64_to_dec(xp_earned as u64);
        out.append(digits.as_str());
        out.append(" XP! Doors have been unlocked!");
        out
    } else if success {
        "Success! Doors have been unlocked! (Level already completed)".to_owned()
    } else {
        "Output doesn't match expected result. Try again!".to_owned()
    }
}

/// The feedback line for a function challenge run.
pub open spec fn spec_function_feedback(
    all_passed: bool,
    test_only: bool,
    passed_count: nat,
    total: nat,
    xp_earned: u32,
) -> Seq<char> {
    if all_passed && test_only {
        "All "@ + dec_rep(passed_count) + " sample tests passed! Click SUBMIT to complete."@
    } else if all_passed && xp_earned > 0 {
        "All "@ + dec_rep(total) + " tests passed! +"@ + dec_rep(xp_earned as nat)
            + " XP! Doors have been unlocked!"@
    } else if all_passed {
        "All "@ + dec_rep(total) + " tests passed! Doors have been unlocked! (Level already completed)"@
    } else {
        dec_rep(passed_count) + "/"@ + dec_rep(total)
            + " tests passed. Check your logic and try again!"@
    }
}

/// Build the feedback line for a function challenge run.
pub fn function_feedback(
    all_passed: bool,
    test_only: bool,
    passed_count: usize,
    total: usize,
    xp_earned: u32,
) -> (r: String)
    ensures
        r@ == spec_function_feedback(
            all_passed,
            test_only,
            passed_count as nat,
            total as nat,
            xp_earned,
        ),
{
    if all_passed && test_only {
        let mut out = "All ".to_owned();
        let digits = usize_to_dec(passed_count);
        out.append(digits.as_str());
        out.append(" sample tests passed! Click SUBMIT to complete.");
        out
    } else if all_passed && xp_earned > 0 {
        let mut out = "All ".to_owned();
        let digits = usize_to_dec(total);
        out.append(digits.as_str());
        out.append(" tests passed! +");
        let xp = u64_to_dec(xp_earned as u64);
        out.append(xp.as_str());
        out.append(" XP! Doors have been unlocked!");
        out
    } else if all_passed {
        let mut out = "All ".to_owned();
        let digits = usize_to_dec(total);
        out.append(digits.as_str());
        out.append(" tests passed! Doors have been unlocked! (Level already completed)");
        out
    } else {
        let mut out = usize_to_dec(passed_count);
        out.append("/");
        let digits = usize_to_dec(total);
        out.append(digits.as_str());
        out.append(" tests passed. Check your logic and try again!");
        out
    }
}

/// The feedback line for a quest submission.
pub open spec fn spec_quest_feedback(
    all_passed: bool,
    test_only: bool,
    passed_count: nat,
    total: nat,
    xp_earned: u32,
    quests_remaining: nat,
) -> Seq<char> {
    if all_passed && test_only {
        "All "@ + dec_rep(passed_count) + " sample tests passed! Click SUBMIT to complete."@
    } else if all_passed && quests_remaining == 0 {
        "Quest complete! +"@ + dec_rep(xp_earned as nat) + " XP! All quests done - doors unlocked!"@
    } else if all_passed && xp_earned > 0 {
        "Quest complete! +"@ + dec_rep(xp_earned as nat) + " XP! "@ + dec_rep(quests_remaining)
            + " quest(s) remaining."@
    } else if all_passed {
        "Quest already completed. Try another quest!"@
    } else {
        dec_rep(passed_count) + "/"@ + dec_rep(total)
            + " tests passed. Check your logic and try again!"@
    }
}

/// Build the feedback line for a quest submission.
pub fn quest_feedback(
    all_passed: bool,
    test_only: bool,
    passed_count: usize,
    total: usize,
    xp_earned: u32,
    quests_remaining: usize,
) -> (r: String)
    ensures
        r@ == spec_quest_feedback(
            all_passed,
            test_only,
            passed_count as nat,
            total as nat,
            xp_earned,
            quests_remaining as nat,
        ),
{
    if all_passed && test_only {
        let mut out = "All ".to_owned();
        let digits = usize_to_dec(passed_count);
        out.append(digits.as_str());
        out.append(" sample tests passed! Click SUBMIT to complete.");
        out
    } else if all_passed && quests_remaining == 0 {
        let mut out = "Quest complete! +".to_owned();
        let xp = u64_to_dec(xp_earned as u64);
        out.append(xp.as_str());
        out.append(" XP! All quests done - doors unlocked!");
        out
    } else if all_passed && xp_earned > 0 {
        let mut out = "Quest complete! +".to_owned();
        let xp = u64_to_dec(xp_earned as u64);
        out.append(xp.as_str());
        out.append(" XP! ");
        let remaining = usize_to_dec(quests_remaining);
        out.append(remaining.as_str());
        out.append(" quest(s) remaining.");
        out
    } else if all_passed {
        "Quest already completed. Try another quest!".to_owned()
    } else {
        let mut out = usize_to_dec(passed_count);
        out.append("/");
        let digits = usize_to_dec(total);
        out.append(digits.as_str());
        out.append(" tests passed. Check your logic and try again!");
        out
    }
}

/// How many quests of a level remain after some were completed.
pub fn quests_remaining_after(total_quests: usize, completed_count: usize) -> (r: usize)
    ensures
        r == if completed_count <= total_quests {
            total_quests - completed_count
        } else {
            0int
        },
{
    if completed_count <= total_quests {
        total_quests - completed_count
    } else {
        0
    }
}

} // verus!
