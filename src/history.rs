//! The history of earlier iterations, as text for the model's prompt.
use crate::json::{opt_view, parse_json, parsed_json, str_field, Json, JsonView};
use vstd::prelude::*;
use vstd::string::*;

verus! {

/// The text of one earlier iteration, from its metadata (as parsed), its
/// analysis and its action plan. An iteration whose metadata lacks the
/// timestamp, instruction or status contributes nothing.
pub open spec fn iteration_text(meta: Option<JsonView>, analysis: Seq<char>, actions: Seq<char>) -> Seq<char> {
    match meta {
        Some(m) => match (
            str_field(m, "timestamp"@),
            str_field(m, "instruction"@),
            str_field(m, "status"@),
        ) {
            (Some(t), Some(i), Some(s)) => "Iteration "@ + t + ":\n"@ + "Instruction: "@ + i + "\n"@
                + "Status: "@ + s + "\n"@ + match str_field(m, "feedback"@) {
                Some(f) => "Feedback: "@ + f + "\n"@,
                None => Seq::empty(),
            } + "Analysis:\n"@ + analysis + "\n"@ + "Actions:\n"@ + actions + "\n\n"@,
            _ => Seq::empty(),
        },
        None => Seq::empty(),
    }
}

/// The texts of the iterations, one after another.
pub open spec fn iterations_text(its: Seq<(String, String, String, Option<String>)>) -> Seq<char>
    decreases its.len(),
{
    if its.len() == 0 {
        Seq::empty()
    } else {
        let last = its.last();
        iterations_text(its.drop_last()) + iteration_text(parsed_json(last.0@), last.1@, last.2@)
    }
}

/// The history section of the prompt for the given iterations (metadata,
/// analysis, actions and an optional screenshot each).
pub open spec fn history_of(its: Seq<(String, String, String, Option<String>)>) -> Seq<char> {
    if its.len() == 0 {
        "No previous iterations available."@
    } else {
        "Previous iterations:\n\n"@ + iterations_text(its)
    }
}

/// The text of one earlier iteration, given its parsed metadata.
pub fn format_iteration(meta: &Option<Json>, analysis: &str, actions: &str) -> (r: String)
    ensures
        r@ == iteration_text(opt_view(*meta), analysis@, actions@),
{
    let m = match meta {
        Some(m) => m,
        None => {
            return String::new();
        },
    };
    match (m.str_at("timestamp"), m.str_at("instruction"), m.str_at("status")) {
        (Some(t), Some(i), Some(s)) => {
            let mut out = String::from_str("Iteration ");
            out.append(t);
            out.append(":\n");
            out.append("Instruction: ");
            out.append(i);
            out.append("\n");
            out.append("Status: ");
            out.append(s);
            out.append("\n");
            match m.str_at("feedback") {
                Some(f) => {
                    out.append("Feedback: ");
                    out.append(f);
                    out.append("\n");
                },
                None => {},
            }
            out.append("Analysis:\n");
            out.append(analysis);
            out.append("\n");
            out.append("Actions:\n");
            out.append(actions);
            out.append("\n\n");
            assert(out@ =~= iteration_text(opt_view(*meta), analysis@, actions@));
            out
        },
        _ => String::new(),
    }
}

/// The history section of the prompt: each earlier iteration whose
/// metadata parses and names its timestamp, instruction and status.
pub fn format_iterations_history(iterations: &Vec<(String, String, String, Option<String>)>) -> (r:
    String)
    ensures
        r@ == history_of(iterations@),
{
    if iterations.len() == 0 {
        return String::from_str("No previous iterations available.");
    }
    let mut out = String::from_str("Previous iterations:\n\n");
    let mut i: usize = 0;
    while i < iterations.len()
        invariant
            i <= iterations@.len(),
            out@ == "Previous iterations:\n\n"@ + iterations_text(iterations@.subrange(0, i as int)),
        decreases iterations.len() - i,
    {
        let meta = parse_json(iterations[i].0.as_str());
        let part = format_iteration(&meta, iterations[i].1.as_str(), iterations[i].2.as_str());
        proof {
            let s = iterations@.subrange(0, i + 1);
            assert(s.drop_last() =~= iterations@.subrange(0, i as int));
            assert(s.last() == iterations@[i as int]);
        }
        let ghost before = out@;
        out.append(part.as_str());
        assert(out@ =~= before + part@);
        i = i + 1;
    }
    assert(iterations@.subrange(0, iterations@.len() as int) =~= iterations@);
    out
}

} // verus!
