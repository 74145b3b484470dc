//! Judging whether an action took effect, and retrying it with adjusted
//! parameters.
//!
//! Verification is deliberately weak: only a window focus is checked against
//! the screen analysis; every other known action is taken to have worked,
//! leaving the next analysis cycle to notice otherwise.
use crate::actions::executor::action_type_of;
use crate::input::{
    button_for_name, focus_ops, focus_plan, named_button, ops_view, Direction, InputOp, OpView,
};
use crate::json::{
    array_field, int_field, items_view, json_get, json_is_object, str_field, Json, JsonView,
};
use crate::models::action_result::opt_str_view;
use crate::models::{ActionResult, TaskState};
use crate::text::{contains_str, is_substring, lower_of, lowercase, str_eq};
use vstd::prelude::*;
use vstd::string::*;

verus! {

/// How many retries an action gets before the task pauses.
pub const MAX_RETRIES: u32 = 3;

/// The judgement on an action.
pub ghost enum Verdict {
    /// No analysis with a `state` object is at hand: nothing was judged.
    Skipped,
    Succeeded,
    Failed(Seq<char>),
}

/// Whether an action type is one whose effect is not checked.
pub open spec fn unchecked_kind(t: Seq<char>) -> bool {
    t == "mouse_move"@ || t == "mouse_click"@ || t == "key_press"@ || t == "key_combination"@
        || t == "text_input"@ || t == "wait"@ || t == "task_done"@
}

/// The judgement on action `a` against screen analysis `analysis`.
pub open spec fn verdict(a: JsonView, analysis: JsonView) -> Verdict {
    let state = json_get(analysis, "state"@);
    if !json_is_object(state) {
        Verdict::Skipped
    } else {
        match str_field(a, "action"@) {
            Some(t) => if t == "window_focus"@ {
                let title = match str_field(a, "title"@) {
                    Some(s) => s,
                    None => Seq::empty(),
                };
                match str_field(state.unwrap(), "active_window"@) {
                    Some(w) => if is_substring(lower_of(title), lower_of(w)) {
                        Verdict::Succeeded
                    } else {
                        Verdict::Failed(
                            "Window focus failed. Expected: "@ + title + ", Got: "@ + w,
                        )
                    },
                    None => Verdict::Failed("No active window information available"@),
                }
            } else if unchecked_kind(t) {
                Verdict::Succeeded
            } else {
                Verdict::Failed("Unknown action type"@)
            },
            None => Verdict::Failed("Unknown action type"@),
        }
    }
}

/// A window focus whose title occurs, ignoring case, in the active window
/// that the analysis reports is judged a success.
pub proof fn lemma_focus_found(a: JsonView, analysis: JsonView, title: Seq<char>, active: Seq<char>)
    requires
        str_field(a, "action"@) == Some("window_focus"@),
        str_field(a, "title"@) == Some(title),
        json_is_object(json_get(analysis, "state"@)),
        str_field(json_get(analysis, "state"@).unwrap(), "active_window"@) == Some(active),
        is_substring(lower_of(title), lower_of(active)),
    ensures
        verdict(a, analysis) == Verdict::Succeeded,
{
}

/// Whether a result carries the given verdict.
pub open spec fn judged(r: ActionResult, v: Verdict) -> bool {
    match v {
        Verdict::Skipped => !r.success && r.error_message.is_none(),
        Verdict::Succeeded => r.success && r.error_message.is_none(),
        Verdict::Failed(m) => !r.success && opt_str_view(r.error_message) == Some(m),
    }
}

/// Judges whether an action took effect, from the task's last screen analysis.
pub fn verify_action(action: &Json, task_state: &TaskState) -> (r: ActionResult)
    ensures
        r.action_type@ == action_type_of(action@),
        r.retry_count == 0,
        judged(r, verdict(action@, task_state.analysis@)),
{
    let kind = action.str_at("action");
    let mut result = match kind {
        Some(t) => ActionResult::new(t),
        None => ActionResult::new("unknown"),
    };
    let state = match task_state.analysis.get("state") {
        Some(s) => match s {
            Json::Object(_) => s,
            _ => {
                return result;
            },
        },
        None => {
            return result;
        },
    };
    let t = match kind {
        Some(t) => t,
        None => {
            result.mark_error("Unknown action type");
            return result;
        },
    };
    if str_eq(t, "window_focus") {
        let title = match action.str_at("title") {
            Some(s) => s,
            None => "",
        };
        proof {
            reveal_strlit("");
        }
        assert(title@ == match str_field(action@, "title"@) {
            Some(s) => s,
            None => Seq::<char>::empty(),
        });
        match state.str_at("active_window") {
            Some(w) => {
                let w_lower = lowercase(w);
                let title_lower = lowercase(title);
                if contains_str(w_lower.as_str(), title_lower.as_str()) {
                    result.mark_success();
                } else {
                    let message = String::from_str("Window focus failed. Expected: ").concat(
                        title,
                    ).concat(", Got: ").concat(w);
                    result.mark_error(message.as_str());
                }
            },
            None => {
                result.mark_error("No active window information available");
            },
        }
    } else if str_eq(t, "mouse_move") || str_eq(t, "mouse_click") || str_eq(t, "key_press")
        || str_eq(t, "key_combination") || str_eq(t, "text_input") || str_eq(t, "wait")
        || str_eq(t, "task_done") {
        result.mark_success();
    } else {
        result.mark_error("Unknown action type");
    }
    result
}

/// The integer that a JSON item holds.
pub open spec fn int_item(j: JsonView) -> Option<i64> {
    match j {
        JsonView::Int(n) => Some(n),
        _ => None,
    }
}

/// `(a + b) / 2`, rounded toward zero.
pub open spec fn midpoint(a: i64, b: i64) -> i64 {
    let s = a + b;
    (if s >= 0 {
        s / 2
    } else {
        -((-s) / 2)
    }) as i64
}

/// The center of a UI element's box `coords: [x1, y1, x2, y2]`, when its
/// first four coordinates are integers.
pub open spec fn element_center(e: JsonView) -> Option<(i64, i64)> {
    match array_field(e, "coords"@) {
        Some(c) => if c.len() >= 4 && int_item(c[0]).is_some() && int_item(c[1]).is_some()
            && int_item(c[2]).is_some() && int_item(c[3]).is_some() {
            Some(
                (
                    midpoint(int_item(c[0]).unwrap(), int_item(c[2]).unwrap()),
                    midpoint(int_item(c[1]).unwrap(), int_item(c[3]).unwrap()),
                ),
            )
        } else {
            None
        },
        None => None,
    }
}

/// The squared distance from point `c` to `(x, y)`.
pub open spec fn sq_dist(c: (i64, i64), x: i64, y: i64) -> int {
    (c.0 - x) * (c.0 - x) + (c.1 - y) * (c.1 - y)
}

/// The center nearest to `(x, y)` among the elements' centers; of equally
/// near centers the first one found wins.
pub open spec fn nearest_center(elems: Seq<JsonView>, x: i64, y: i64) -> Option<(i64, i64)>
    decreases elems.len(),
{
    if elems.len() == 0 {
        None
    } else {
        let best = nearest_center(elems.drop_last(), x, y);
        match element_center(elems.last()) {
            None => best,
            Some(c) => match best {
                None => Some(c),
                Some(b) => if sq_dist(c, x, y) < sq_dist(b, x, y) {
                    Some(c)
                } else {
                    best
                },
            },
        }
    }
}

fn midpoint_of(a: i64, b: i64) -> (r: i64)
    ensures
        r == midpoint(a, b),
{
    let s: i128 = a as i128 + b as i128;
    if s >= 0 {
        (s / 2) as i64
    } else {
        let n: i128 = -s;
        (-(n / 2)) as i64
    }
}

/// `|a - b|` squared.
fn sq_gap(a: i64, b: i64) -> (r: u128)
    ensures
        r == (a - b) * (a - b),
{
    let d: i128 = a as i128 - b as i128;
    let g: u128 = if d >= 0 {
        d as u128
    } else {
        (-d) as u128
    };
    assert(g < 0x1_0000_0000_0000_0000);
    assert(g * g < 0x1_0000_0000_0000_0000_0000_0000_0000_0000) by (nonlinear_arith)
        requires
            g < 0x1_0000_0000_0000_0000,
    ;
    assert(g * g == (a - b) * (a - b)) by (nonlinear_arith)
        requires
            g == d || g == -d,
            d == a - b,
    ;
    g * g
}

/// Whether `a1 + b1 < a2 + b2`, without forming the sums.
fn sum_less(a1: u128, b1: u128, a2: u128, b2: u128) -> (r: bool)
    ensures
        r == (a1 + b1 < a2 + b2),
{
    if a1 >= a2 {
        b2 > b1 && a1 - a2 < b2 - b1
    } else if b1 < b2 {
        true
    } else {
        b1 - b2 < a2 - a1
    }
}

/// The center of a UI element's box, when its coordinates are integers.
pub fn center_of(element: &Json) -> (r: Option<(i64, i64)>)
    ensures
        r == element_center(element@),
{
    match element.array_at("coords") {
        Some(c) => {
            if c.len() < 4 {
                return None;
            }
            match (&c[0], &c[1], &c[2], &c[3]) {
                (
                    Json::Int(x1),
                    Json::Int(y1),
                    Json::Int(x2),
                    Json::Int(y2),
                ) => Some((midpoint_of(*x1, *x2), midpoint_of(*y1, *y2))),
                _ => None,
            }
        },
        None => None,
    }
}

/// The center of the element nearest to `(x, y)`, by squared distance
/// between centers; the first of equally near elements wins.
pub fn nearest_element_center(elements: &Vec<Json>, x: i64, y: i64) -> (r: Option<(i64, i64)>)
    ensures
        r == nearest_center(items_view(elements@), x, y),
{
    let mut best: Option<(i64, i64)> = None;
    let mut best_dx: u128 = 0;
    let mut best_dy: u128 = 0;
    let mut i: usize = 0;
    while i < elements.len()
        invariant
            i <= elements@.len(),
            best == nearest_center(items_view(elements@).subrange(0, i as int), x, y),
            best matches Some(b) ==> best_dx == (b.0 - x) * (b.0 - x) && best_dy == (b.1 - y) * (
            b.1 - y),
        decreases elements.len() - i,
    {
        proof {
            let s = items_view(elements@).subrange(0, i + 1);
            assert(s.drop_last() =~= items_view(elements@).subrange(0, i as int));
            assert(s.last() == elements@[i as int]@);
        }
        match center_of(&elements[i]) {
            Some(c) => {
                let dx = sq_gap(c.0, x);
                let dy = sq_gap(c.1, y);
                let closer = match best {
                    None => true,
                    Some(_) => sum_less(dx, dy, best_dx, best_dy),
                };
                if closer {
                    best = Some(c);
                    best_dx = dx;
                    best_dy = dy;
                }
            },
            None => {},
        }
        i = i + 1;
    }
    assert(items_view(elements@).subrange(0, elements@.len() as int) =~= items_view(elements@));
    best
}

/// The other window-switching method.
pub open spec fn toggled_method(m: Seq<char>) -> Seq<char> {
    if m == "alt_tab"@ {
        "super_tab"@
    } else {
        "alt_tab"@
    }
}

/// The input operations that adjust an action before it is judged again:
/// a window focus switches by the other method; a pointer action moves to
/// the center of the nearest UI element (and clicks there again); any other
/// action only waits 500 ms.
pub open spec fn adjustment(a: JsonView, analysis: JsonView) -> Seq<OpView> {
    let t = str_field(a, "action"@);
    if t == Some("window_focus"@) {
        match (str_field(a, "method"@), str_field(a, "title"@), str_field(a, "class"@)) {
            (Some(m), Some(_), Some(_)) => focus_plan(toggled_method(m)),
            _ => Seq::empty(),
        }
    } else if t == Some("mouse_move"@) || t == Some("mouse_click"@) {
        match (int_field(a, "x"@), int_field(a, "y"@), array_field(analysis, "ui_elements"@)) {
            (Some(x), Some(y), Some(elems)) => match nearest_center(elems, x, y) {
                Some(c) => {
                    let click = if t == Some("mouse_click"@) {
                        match str_field(a, "button"@) {
                            Some(b) => match named_button(b) {
                                Some(button) => seq![OpView::Button(button, Direction::Click)],
                                None => Seq::empty(),
                            },
                            None => Seq::empty(),
                        }
                    } else {
                        Seq::empty()
                    };
                    seq![OpView::MoveTo(c.0, c.1)] + click
                },
                None => Seq::empty(),
            },
            _ => Seq::empty(),
        }
    } else {
        seq![OpView::Sleep(500)]
    }
}

/// Plans the adjustment of an action against a screen analysis.
pub fn adjust_action(action: &Json, analysis: &Json) -> (r: Vec<InputOp>)
    ensures
        ops_view(r@) == adjustment(action@, analysis@),
{
    let mut ops: Vec<InputOp> = Vec::new();
    assert(ops_view(ops@) =~= Seq::<OpView>::empty());
    let t = action.str_at("action");
    let is_focus = match t {
        Some(t) => str_eq(t, "window_focus"),
        None => false,
    };
    let is_move = match t {
        Some(t) => str_eq(t, "mouse_move"),
        None => false,
    };
    let is_click = match t {
        Some(t) => str_eq(t, "mouse_click"),
        None => false,
    };
    if is_focus {
        match (action.str_at("method"), action.str_at("title"), action.str_at("class")) {
            (Some(m), Some(_), Some(_)) => {
                if str_eq(m, "alt_tab") {
                    focus_ops("super_tab")
                } else {
                    focus_ops("alt_tab")
                }
            },
            _ => ops,
        }
    } else if is_move || is_click {
        match (action.int_at("x"), action.int_at("y"), analysis.array_at("ui_elements")) {
            (Some(x), Some(y), Some(elems)) => match nearest_element_center(elems, x, y) {
                Some(c) => {
                    ops.push(InputOp::MoveTo(c.0, c.1));
                    let button = if is_click {
                        match action.str_at("button") {
                            Some(b) => button_for_name(b),
                            None => None,
                        }
                    } else {
                        None
                    };
                    match button {
                        Some(b) => {
                            ops.push(InputOp::Button(b, Direction::Click));
                        },
                        None => {},
                    }
                    assert(ops_view(ops@) =~= adjustment(action@, analysis@));
                    ops
                },
                None => ops,
            },
            _ => ops,
        }
    } else {
        ops.push(InputOp::Sleep(500));
        assert(ops_view(ops@) =~= seq![OpView::Sleep(500)]);
        ops
    }
}

/// Whether a result gets another retry: it is not a success and it has
/// retries left.
pub open spec fn retry_due(success: bool, count: u32) -> bool {
    !success && count < MAX_RETRIES
}

/// Whether a result has used up its retries without success; the task then
/// pauses.
pub open spec fn retries_exhausted(success: bool, count: u32) -> bool {
    !success && count >= MAX_RETRIES
}

/// Whether another retry is due for this result.
pub fn should_retry(result: &ActionResult) -> (r: bool)
    ensures
        r == retry_due(result.success, result.retry_count),
{
    !result.success && result.retry_count < MAX_RETRIES
}

/// One retry: the operations that adjust the action, and the new judgement.
#[derive(Debug)]
pub struct RetryStep {
    pub ops: Vec<InputOp>,
    pub result: ActionResult,
}

/// Retries an action once: counts one more retry, plans the action's
/// adjustment against the task's screen analysis, and judges it again. A
/// result that has reached the retry ceiling is kept, with nothing to do.
pub fn retry_action(action: &Json, task_state: &TaskState, previous: &ActionResult) -> (r:
    RetryStep)
    ensures
        previous.retry_count >= MAX_RETRIES ==> r.result == *previous && r.ops@.len() == 0,
        previous.retry_count < MAX_RETRIES ==> {
            &&& r.result.retry_count == previous.retry_count + 1
            &&& ops_view(r.ops@) == adjustment(action@, task_state.analysis@)
            &&& judged(r.result, verdict(action@, task_state.analysis@))
            &&& r.result.action_type@ == action_type_of(action@)
        },
{
    if previous.retry_count >= MAX_RETRIES {
        return RetryStep { ops: Vec::new(), result: previous.duplicate() };
    }
    let ops = adjust_action(action, &task_state.analysis);
    let mut result = verify_action(action, task_state);
    result.retry_count = previous.retry_count + 1;
    RetryStep { ops, result }
}

/// The retries of one action: the operations of each round, in order, the
/// final judgement, and whether the task paused.
#[derive(Debug)]
pub struct RetryOutcome {
    pub rounds: Vec<Vec<InputOp>>,
    pub result: ActionResult,
    pub paused: bool,
}

/// Retries an action until it succeeds or reaches the retry ceiling, and
/// pauses the task when it ends there without success. Each round's
/// operations are to be dispatched in order; judging uses the task's stored
/// analysis, which dispatching does not change.
pub fn retry_until_settled(action: &Json, task_state: &mut TaskState, first: ActionResult) -> (r:
    RetryOutcome)
    requires
        first.retry_count <= MAX_RETRIES,
    ensures
        r.result.retry_count <= MAX_RETRIES,
        !retry_due(r.result.success, r.result.retry_count),
        r.rounds@.len() == r.result.retry_count - first.retry_count,
        forall|i: int|
            0 <= i < r.rounds@.len() ==> ops_view(#[trigger] r.rounds@[i]@) == adjustment(
                action@,
                old(task_state).analysis@,
            ),
        r.rounds@.len() == 0 ==> r.result == first,
        r.rounds@.len() > 0 ==> judged(r.result, verdict(action@, old(task_state).analysis@))
            && r.result.action_type@ == action_type_of(action@),
        r.paused == retries_exhausted(r.result.success, r.result.retry_count),
        r.paused ==> final(task_state).status@ == "paused"@,
        !r.paused ==> final(task_state).status == old(task_state).status,
        final(task_state).attempts == old(task_state).attempts,
        final(task_state).action_results == old(task_state).action_results,
        final(task_state).feedback == old(task_state).feedback,
        final(task_state).memory == old(task_state).memory,
        final(task_state).last_action == old(task_state).last_action,
        final(task_state).analysis == old(task_state).analysis,
        final(task_state).success_criteria == old(task_state).success_criteria,
        final(task_state).start_time == old(task_state).start_time,
{
    let mut rounds: Vec<Vec<InputOp>> = Vec::new();
    let mut result = first;
    while should_retry(&result)
        invariant
            *task_state == *old(task_state),
            first.retry_count <= result.retry_count <= MAX_RETRIES,
            rounds@.len() == result.retry_count - first.retry_count,
            forall|i: int|
                0 <= i < rounds@.len() ==> ops_view(#[trigger] rounds@[i]@) == adjustment(
                    action@,
                    task_state.analysis@,
                ),
            rounds@.len() == 0 ==> result == first,
            rounds@.len() > 0 ==> judged(result, verdict(action@, task_state.analysis@))
                && result.action_type@ == action_type_of(action@),
        decreases MAX_RETRIES - result.retry_count,
    {
        let step = retry_action(action, task_state, &result);
        rounds.push(step.ops);
        result = step.result;
    }
    let paused = task_state.pause_if_exhausted(&result);
    RetryOutcome { rounds, result, paused }
}

/// The outcome and retry count after up to `n` retries of action `a`
/// against `analysis`, starting from the given ones.
pub open spec fn retried(a: JsonView, analysis: JsonView, success: bool, count: u32, n: nat) -> (
    bool,
    u32,
)
    decreases n,
{
    if n == 0 || !retry_due(success, count) {
        (success, count)
    } else {
        retried(a, analysis, verdict(a, analysis) is Succeeded, (count + 1) as u32, (n - 1) as nat)
    }
}

/// However many retries are taken, the retry count of an action never
/// exceeds the ceiling; and once no retry is due for a result that still
/// fails, the count has reached the ceiling, which pauses the task.
pub proof fn lemma_retry_ceiling(a: JsonView, analysis: JsonView, success: bool, count: u32, n: nat)
    requires
        count <= MAX_RETRIES,
    ensures
        retried(a, analysis, success, count, n).1 <= MAX_RETRIES,
        ({
            let last = retried(a, analysis, success, count, n);
            !retry_due(last.0, last.1) && !last.0 ==> retries_exhausted(last.0, last.1) && last.1
                == MAX_RETRIES
        }),
    decreases n,
{
    if n > 0 && retry_due(success, count) {
        lemma_retry_ceiling(a, analysis, verdict(a, analysis) is Succeeded, (count + 1) as u32, (n
            - 1) as nat);
    }
}

} // verus!
