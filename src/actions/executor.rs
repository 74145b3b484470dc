//! From a planned action to input operations and a recorded result.
use crate::input::{
    button_for_name, combination_ops, combination_plan, focus_ops, focus_plan, key_for_name,
    named_button, named_key, ops_view, plan_view, strings_view, Direction, InputOp, OpView,
};
use crate::json::{array_field, int_field, items_view, str_field, Json, JsonView};
use crate::models::action_result::opt_str_view;
use crate::models::{ActionResult, TaskState};
use crate::text::{lower_of, lowercase, str_eq};
use vstd::prelude::*;
use vstd::string::*;

verus! {

/// The message for an action of kind `kind` that lacks the parameter `field`.
pub open spec fn missing_message(field: Seq<char>, kind: Seq<char>) -> Seq<char> {
    "Missing "@ + field + " for "@ + kind + " action"@
}

/// The lower-cased string items of a key list; items that are not strings
/// are skipped.
pub open spec fn lowered_names(items: Seq<JsonView>) -> Seq<Seq<char>>
    decreases items.len(),
{
    if items.len() == 0 {
        Seq::empty()
    } else {
        let rest = lowered_names(items.drop_last());
        match items.last() {
            JsonView::Str(s) => rest.push(lower_of(s)),
            _ => rest,
        }
    }
}

/// The pause of a wait action: negative durations wait for nothing.
pub open spec fn wait_millis(ms: i64) -> u64 {
    if ms < 0 {
        0
    } else {
        ms as u64
    }
}

/// The input operations that an action stands for, or the reason that it
/// cannot be carried out.
pub open spec fn action_plan(a: JsonView) -> Result<Seq<OpView>, Seq<char>> {
    match str_field(a, "action"@) {
        Some(t) => if t == "window_focus"@ {
            if str_field(a, "title"@).is_none() {
                Err(missing_message("title"@, t))
            } else if str_field(a, "class"@).is_none() {
                Err(missing_message("class"@, t))
            } else if str_field(a, "method"@).is_none() {
                Err(missing_message("method"@, t))
            } else {
                Ok(focus_plan(str_field(a, "method"@).unwrap()))
            }
        } else if t == "mouse_move"@ {
            if int_field(a, "x"@).is_none() {
                Err(missing_message("x"@, t))
            } else if int_field(a, "y"@).is_none() {
                Err(missing_message("y"@, t))
            } else {
                Ok(seq![OpView::MoveTo(int_field(a, "x"@).unwrap(), int_field(a, "y"@).unwrap())])
            }
        } else if t == "mouse_click"@ {
            match str_field(a, "button"@) {
                Some(b) => match named_button(b) {
                    Some(button) => Ok(seq![OpView::Button(button, Direction::Click)]),
                    None => Err("Unknown mouse button: "@ + b),
                },
                None => Err(missing_message("button"@, t)),
            }
        } else if t == "key_press"@ {
            match str_field(a, "key"@) {
                Some(k) => match named_key(lower_of(k)) {
                    Some(key) => Ok(seq![OpView::Key(key, Direction::Click)]),
                    None => Err("Unknown key: "@ + k),
                },
                None => Err(missing_message("key"@, t)),
            }
        } else if t == "key_combination"@ {
            match array_field(a, "keys"@) {
                Some(items) => combination_plan(lowered_names(items)),
                None => Err(missing_message("keys"@, t)),
            }
        } else if t == "text_input"@ {
            match str_field(a, "text"@) {
                Some(s) => Ok(seq![OpView::Text(s)]),
                None => Err(missing_message("text"@, t)),
            }
        } else if t == "wait"@ {
            match int_field(a, "ms"@) {
                Some(ms) => Ok(seq![OpView::Sleep(wait_millis(ms))]),
                None => Err(missing_message("ms"@, t)),
            }
        } else if t == "task_done"@ {
            match str_field(a, "reason"@) {
                Some(_) => Ok(Seq::empty()),
                None => Err(missing_message("reason"@, t)),
            }
        } else {
            Err("Unknown action type"@)
        },
        None => Err("Unknown action type"@),
    }
}

/// The parameters that an action of kind `kind` requires, in the order they
/// are checked.
pub open spec fn required_params(kind: Seq<char>) -> Seq<Seq<char>> {
    if kind == "window_focus"@ {
        seq!["title"@, "class"@, "method"@]
    } else if kind == "mouse_move"@ {
        seq!["x"@, "y"@]
    } else if kind == "mouse_click"@ {
        seq!["button"@]
    } else if kind == "key_press"@ {
        seq!["key"@]
    } else if kind == "key_combination"@ {
        seq!["keys"@]
    } else if kind == "text_input"@ {
        seq!["text"@]
    } else if kind == "wait"@ {
        seq!["ms"@]
    } else if kind == "task_done"@ {
        seq!["reason"@]
    } else {
        Seq::empty()
    }
}

/// Whether action `a` carries parameter `p` with the type it needs: an
/// integer for `x`, `y` and `ms`, an array for `keys`, a string otherwise.
pub open spec fn has_param(a: JsonView, p: Seq<char>) -> bool {
    if p == "x"@ || p == "y"@ || p == "ms"@ {
        int_field(a, p) is Some
    } else if p == "keys"@ {
        array_field(a, p) is Some
    } else {
        str_field(a, p) is Some
    }
}

/// An action that lacks a parameter its kind requires is rejected before
/// anything is dispatched, with a message that names a missing parameter.
pub proof fn lemma_missing_param_rejected(a: JsonView, kind: Seq<char>, i: int)
    requires
        str_field(a, "action"@) == Some(kind),
        0 <= i < required_params(kind).len(),
        !has_param(a, required_params(kind)[i]),
    ensures
        exists|j: int|
            0 <= j < required_params(kind).len() && !has_param(a, required_params(kind)[j])
                && action_plan(a) == Err::<Seq<OpView>, Seq<char>>(
                missing_message(required_params(kind)[j], kind),
            ),
{
    reveal_strlit("x");
    reveal_strlit("y");
    reveal_strlit("ms");
    reveal_strlit("keys");
    reveal_strlit("title");
    reveal_strlit("class");
    reveal_strlit("method");
    reveal_strlit("button");
    reveal_strlit("key");
    reveal_strlit("text");
    reveal_strlit("reason");
    let ps = required_params(kind);
    if kind == "window_focus"@ {
        if !has_param(a, ps[0]) {
            assert(action_plan(a) == Err::<Seq<OpView>, Seq<char>>(missing_message(ps[0], kind)));
        } else if !has_param(a, ps[1]) {
            assert(action_plan(a) == Err::<Seq<OpView>, Seq<char>>(missing_message(ps[1], kind)));
        } else {
            assert(action_plan(a) == Err::<Seq<OpView>, Seq<char>>(missing_message(ps[2], kind)));
        }
    } else if kind == "mouse_move"@ {
        if !has_param(a, ps[0]) {
            assert(action_plan(a) == Err::<Seq<OpView>, Seq<char>>(missing_message(ps[0], kind)));
        } else {
            assert(action_plan(a) == Err::<Seq<OpView>, Seq<char>>(missing_message(ps[1], kind)));
        }
    } else if kind == "mouse_click"@ {
        assert(!has_param(a, "button"@));
        assert(action_plan(a) == Err::<Seq<OpView>, Seq<char>>(missing_message(ps[0], kind)));
    } else if kind == "key_press"@ {
        assert(!has_param(a, "key"@));
        assert(action_plan(a) == Err::<Seq<OpView>, Seq<char>>(missing_message(ps[0], kind)));
    } else if kind == "key_combination"@ {
        assert(!has_param(a, "keys"@));
        assert(action_plan(a) == Err::<Seq<OpView>, Seq<char>>(missing_message(ps[0], kind)));
    } else if kind == "text_input"@ {
        assert("text"@[0] != "keys"@[0]);
        assert(!has_param(a, "text"@));
        assert(action_plan(a) == Err::<Seq<OpView>, Seq<char>>(missing_message(ps[0], kind)));
    } else if kind == "wait"@ {
        assert(!has_param(a, "ms"@));
        assert(action_plan(a) == Err::<Seq<OpView>, Seq<char>>(missing_message(ps[0], kind)));
    } else {
        assert(kind == "task_done"@);
        assert(!has_param(a, "reason"@));
        assert(action_plan(a) == Err::<Seq<OpView>, Seq<char>>(missing_message(ps[0], kind)));
    }
}

/// The action type that a result records: the `action` string, or `unknown`.
pub open spec fn action_type_of(a: JsonView) -> Seq<char> {
    match str_field(a, "action"@) {
        Some(t) => t,
        None => "unknown"@,
    }
}

/// Whether an action asks to end the task and carries its reason.
pub open spec fn is_task_done(a: JsonView) -> bool {
    str_field(a, "action"@) == Some("task_done"@) && str_field(a, "reason"@).is_some()
}

fn missing(field: &str, kind: &str) -> (r: String)
    ensures
        r@ == missing_message(field@, kind@),
{
    String::from_str("Missing ").concat(field).concat(" for ").concat(kind).concat(" action")
}

fn single(op: InputOp) -> (r: Vec<InputOp>)
    ensures
        ops_view(r@) == seq![op@],
{
    let mut v: Vec<InputOp> = Vec::new();
    v.push(op);
    assert(ops_view(v@) =~= seq![op@]);
    v
}

/// Lower-cases the string items of a key list, skipping other items.
fn lowered_key_names(items: &Vec<Json>) -> (r: Vec<String>)
    ensures
        strings_view(r@) == lowered_names(items_view(items@)),
{
    let mut names: Vec<String> = Vec::new();
    let mut i: usize = 0;
    while i < items.len()
        invariant
            i <= items@.len(),
            strings_view(names@) == lowered_names(items_view(items@).subrange(0, i as int)),
        decreases items.len() - i,
    {
        let ghost before = names@;
        proof {
            let s = items_view(items@).subrange(0, i + 1);
            assert(s.drop_last() =~= items_view(items@).subrange(0, i as int));
            assert(s.last() == items@[i as int]@);
        }
        match &items[i] {
            Json::Str(s) => {
                names.push(lowercase(s.as_str()));
                assert(strings_view(names@) =~= strings_view(before).push(names@.last()@));
            },
            _ => {},
        }
        i = i + 1;
    }
    assert(items_view(items@).subrange(0, items@.len() as int) =~= items_view(items@));
    names
}

/// Plans the input operations of an action, or says why it cannot be
/// carried out: a missing or ill-typed parameter, an unknown button or key,
/// or an unknown action type. Nothing is dispatched for a rejected action.
pub fn plan_action(action: &Json) -> (r: Result<Vec<InputOp>, String>)
    ensures
        plan_view(r) == action_plan(action@),
{
    let t = match action.str_at("action") {
        Some(t) => t,
        None => {
            return Err(String::from_str("Unknown action type"));
        },
    };
    if str_eq(t, "window_focus") {
        if action.str_at("title").is_none() {
            Err(missing("title", t))
        } else if action.str_at("class").is_none() {
            Err(missing("class", t))
        } else {
            match action.str_at("method") {
                Some(method) => Ok(focus_ops(method)),
                None => Err(missing("method", t)),
            }
        }
    } else if str_eq(t, "mouse_move") {
        match (action.int_at("x"), action.int_at("y")) {
            (Some(x), Some(y)) => Ok(single(InputOp::MoveTo(x, y))),
            (None, _) => Err(missing("x", t)),
            (_, None) => Err(missing("y", t)),
        }
    } else if str_eq(t, "mouse_click") {
        match action.str_at("button") {
            Some(b) => match button_for_name(b) {
                Some(button) => Ok(single(InputOp::Button(button, Direction::Click))),
                None => Err(String::from_str("Unknown mouse button: ").concat(b)),
            },
            None => Err(missing("button", t)),
        }
    } else if str_eq(t, "key_press") {
        match action.str_at("key") {
            Some(k) => {
                let lowered = lowercase(k);
                match key_for_name(lowered.as_str()) {
                    Some(key) => Ok(single(InputOp::Key(key, Direction::Click))),
                    None => Err(String::from_str("Unknown key: ").concat(k)),
                }
            },
            None => Err(missing("key", t)),
        }
    } else if str_eq(t, "key_combination") {
        match action.array_at("keys") {
            Some(items) => combination_ops(&lowered_key_names(items)),
            None => Err(missing("keys", t)),
        }
    } else if str_eq(t, "text_input") {
        match action.str_at("text") {
            Some(s) => Ok(single(InputOp::Text(String::from_str(s)))),
            None => Err(missing("text", t)),
        }
    } else if str_eq(t, "wait") {
        match action.int_at("ms") {
            Some(ms) => {
                let millis: u64 = if ms < 0 {
                    0
                } else {
                    ms as u64
                };
                Ok(single(InputOp::Sleep(millis)))
            },
            None => Err(missing("ms", t)),
        }
    } else if str_eq(t, "task_done") {
        match action.str_at("reason") {
            Some(_) => {
                let none: Vec<InputOp> = Vec::new();
                assert(ops_view(none@) =~= Seq::<OpView>::empty());
                Ok(none)
            },
            None => Err(missing("reason", t)),
        }
    } else {
        Err(String::from_str("Unknown action type"))
    }
}

/// The error message of a failed execution: the planning error, or else
/// what the injection layer reported.
pub open spec fn execution_error(a: JsonView, dispatch_error: Option<&str>) -> Seq<char> {
    match action_plan(a) {
        Err(m) => m,
        Ok(_) => dispatch_error.unwrap()@,
    }
}

/// Records the execution of an action whose planned operations were handed
/// to the injection layer (`dispatch_error` is what that layer reported, if
/// it refused one). The result succeeds when the action could be planned and
/// was dispatched without error; a `task_done` action then ends the task.
/// The result is appended to the task's log; nothing else of the task changes.
pub fn execute_action(action: &Json, task_state: &mut TaskState, dispatch_error: Option<&str>) -> (r:
    ActionResult)
    ensures
        r.action_type@ == action_type_of(action@),
        r.retry_count == 0,
        r.success == (action_plan(action@) is Ok && dispatch_error.is_none()),
        r.success ==> r.error_message.is_none(),
        !r.success ==> opt_str_view(r.error_message) == Some(execution_error(action@, dispatch_error)),
        final(task_state).action_results@ == old(task_state).action_results@.push(r),
        r.success && is_task_done(action@) ==> final(task_state).status@ == "task_done"@,
        !(r.success && is_task_done(action@)) ==> final(task_state).status == old(task_state).status,
        final(task_state).attempts == old(task_state).attempts,
        final(task_state).feedback == old(task_state).feedback,
        final(task_state).memory == old(task_state).memory,
        final(task_state).last_action == old(task_state).last_action,
        final(task_state).analysis == old(task_state).analysis,
        final(task_state).success_criteria == old(task_state).success_criteria,
        final(task_state).start_time == old(task_state).start_time,
{
    let kind = action.str_at("action");
    let mut result = match kind {
        Some(t) => ActionResult::new(t),
        None => ActionResult::new("unknown"),
    };
    match plan_action(action) {
        Err(m) => {
            result.mark_error(m.as_str());
        },
        Ok(_) => match dispatch_error {
            Some(e) => {
                result.mark_error(e);
            },
            None => {
                let done = match kind {
                    Some(t) => str_eq(t, "task_done") && action.str_at("reason").is_some(),
                    None => false,
                };
                if done {
                    task_state.set_task_done();
                }
                result.mark_success();
            },
        },
    }
    task_state.add_action_result(result.duplicate());
    result
}

} // verus!
