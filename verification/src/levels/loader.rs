//! Challenge content data: lessons, function signatures, test cases,
//! quests and world layout descriptions.

use vstd::prelude::*;
use vstd::string::*;

use crate::strutil::{dec_int, dec_rep, i64_to_dec, u64_to_dec};

verus! {

/// A JSON-typed input value for one parameter of a function challenge.
///
/// This is the shape of data the content store hands over: the
/// surrounding application decodes its JSON into this type, rendering a
/// non-integer number to its fixed six-decimal form as it does so.
pub enum JsonVal {
    /// JSON `null`.
    Null,
    /// A JSON boolean.
    Bool(bool),
    /// A JSON integer that fits a signed 64-bit machine word.
    Int(i64),
    /// A JSON unsigned integer above the signed 64-bit range.
    Big(u64),
    /// A JSON non-integer number, already rendered with six decimals.
    Num(String),
    /// A JSON string.
    Text(String),
    /// A JSON array.
    Arr(Vec<JsonVal>),
}

/// A scalar input value rendered for an error message: numbers in
/// decimal, strings quoted, and an array — at this depth — elided.
pub open spec fn spec_json_scalar(v: JsonVal) -> Seq<char> {
    match v {
        JsonVal::Null => "null"@,
        JsonVal::Bool(b) => if b {
            "true"@
        } else {
            "false"@
        },
        JsonVal::Int(n) => dec_int(n as int),
        JsonVal::Big(u) => dec_rep(u as nat),
        JsonVal::Num(s) => s@,
        JsonVal::Text(s) => "\""@ + s@ + "\""@,
        JsonVal::Arr(_) => "[...]"@,
    }
}

/// The elements of an array, rendered and joined by comma and space.
pub open spec fn spec_json_scalar_list(elems: Seq<JsonVal>) -> Seq<char>
    decreases elems.len(),
{
    if elems.len() == 0 {
        Seq::empty()
    } else if elems.len() == 1 {
        spec_json_scalar(elems[0])
    } else {
        spec_json_scalar(elems[0]) + ", "@ + spec_json_scalar_list(elems.drop_first())
    }
}

/// An input value rendered for an error message: a scalar as itself, an
/// array as its bracketed elements (nested arrays elided).
pub open spec fn spec_json_desc(v: JsonVal) -> Seq<char> {
    match v {
        JsonVal::Arr(elems) => "["@ + spec_json_scalar_list(elems@) + "]"@,
        _ => spec_json_scalar(v),
    }
}

fn json_scalar(v: &JsonVal) -> (r: String)
    ensures
        r@ == spec_json_scalar(*v),
{
    match v {
        JsonVal::Null => "null".to_owned(),
        JsonVal::Bool(b) => if *b {
            "true".to_owned()
        } else {
            "false".to_owned()
        },
        JsonVal::Int(n) => i64_to_dec(*n),
        JsonVal::Big(u) => u64_to_dec(*u),
        JsonVal::Num(s) => s.as_str().to_owned(),
        JsonVal::Text(s) => {
            let mut out = "\"".to_owned();
            out.append(s.as_str());
            out.append("\"");
            out
        },
        JsonVal::Arr(_) => "[...]".to_owned(),
    }
}

fn json_scalar_list(elems: &Vec<JsonVal>, i: usize) -> (r: String)
    requires
        i <= elems@.len(),
    ensures
        r@ == spec_json_scalar_list(elems@.skip(i as int)),
    decreases elems@.len() - i,
{
    let ghost suffix = elems@.skip(i as int);
    if i == elems.len() {
        proof {
            assert(suffix.len() == 0);
        }
        return String::new();
    }
    proof {
        assert(suffix[0] == elems@[i as int]);
        assert(suffix.drop_first() =~= elems@.skip(i + 1));
    }
    let mut out = json_scalar(&elems[i]);
    if i + 1 < elems.len() {
        out.append(", ");
        let rest = json_scalar_list(elems, i + 1);
        out.append(rest.as_str());
    } else {
        proof {
            assert(suffix.len() == 1);
        }
    }
    out
}

/// Render an input value for an error message.
pub fn json_desc(v: &JsonVal) -> (r: String)
    ensures
        r@ == spec_json_desc(*v),
{
    match v {
        JsonVal::Arr(elems) => {
            let mut out = "[".to_owned();
            proof {
                assert(elems@.skip(0) =~= elems@);
            }
            let body = json_scalar_list(elems, 0);
            out.append(body.as_str());
            out.append("]");
            out
        },
        _ => json_scalar(v),
    }
}

/// Lesson content shown to the player before a challenge.
pub struct Lesson {
    pub title: String,
    pub content: Vec<String>,
    pub examples: Vec<LessonExample>,
}

pub struct LessonExample {
    pub code: String,
    pub explanation: String,
}

/// The function signature a player must implement.
pub struct FunctionSignature {
    pub name: String,
    pub return_type: String,
    pub parameters: Vec<FunctionParameter>,
}

pub struct FunctionParameter {
    pub name: String,
    pub param_type: String,
}

/// One test case of a function challenge: inputs matched by position to
/// the parameters, the expected trimmed output, and whether the case is
/// a cheap sample run.
pub struct TestCase {
    pub input: Vec<JsonVal>,
    pub expected: String,
    pub sample: bool,
}

/// Progressive teaching content for a quest.
pub struct QuestTeaching {
    pub concept: String,
    pub explanation: String,
    pub tip: Option<String>,
}

/// A single challenge within a level.
pub struct Quest {
    pub id: String,
    pub order: u32,
    pub title: String,
    pub description: String,
    pub recommended: bool,
    pub function_signature: FunctionSignature,
    pub user_template: String,
    pub test_cases: Vec<TestCase>,
    pub hints: Vec<String>,
    pub xp_reward: u32,
    pub teaching: Option<QuestTeaching>,
}

/// Quest info prepared for display, with completion status.
pub struct QuestInfo {
    pub id: String,
    pub order: u32,
    pub title: String,
    pub description: String,
    pub recommended: bool,
    pub completed: bool,
    pub xp_reward: u32,
    pub teaching: Option<QuestTeaching>,
}

/// A named world layout.
pub enum WorldPreset {
    Tutorial,
    Corridor,
    Maze,
    Custom(String),
}

/// One tile placement in a custom layout.
pub struct TileConfig {
    pub x: usize,
    pub y: usize,
    pub tile_type: String,
}

/// A legacy whole-program challenge.
pub struct Challenge {
    pub id: String,
    pub prompt: String,
    pub expected_output: String,
    pub starter_code: String,
}

/// The default XP awarded by a quest that names no reward.
pub fn default_quest_xp() -> (r: u32)
    ensures
        r == 25,
{
    25
}

/// The default XP awarded by a level that names no reward.
pub fn default_xp() -> (r: u32)
    ensures
        r == 50,
{
    50
}

} // verus!
