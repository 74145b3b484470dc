//! The on-disk form of the task state: a JSON document from which the state
//! is read back unchanged.
use crate::json::{
    array_field, copy_json, int_field, items_view, json_as_int, json_get, json_text,
    lemma_array_view, lemma_entries_get_at, parse_json, parsed_json, printed_json, str_field, Json,
    JsonView,
};
use crate::models::action_result::{opt_str_view, ActionResult, ResultView};
use crate::models::task_state::{memory_view, strs, TaskState, TaskStateView};
use vstd::prelude::*;
use vstd::string::*;

verus! {

/// Strings as JSON string items.
pub open spec fn str_items(s: Seq<Seq<char>>) -> Seq<JsonView> {
    s.map_values(|x: Seq<char>| JsonView::Str(x))
}

/// Key-value pairs as two-item JSON arrays.
pub open spec fn pair_items(m: Seq<(Seq<char>, Seq<char>)>) -> Seq<JsonView> {
    m.map_values(
        |e: (Seq<char>, Seq<char>)| JsonView::Array(seq![JsonView::Str(e.0), JsonView::Str(e.1)]),
    )
}

/// The JSON form of an action result.
pub open spec fn encode_result(r: ResultView) -> JsonView {
    JsonView::Object(
        seq![
            ("action_type"@, JsonView::Str(r.action_type)),
            ("success"@, JsonView::Bool(r.success)),
            ("timestamp"@, JsonView::Int(r.timestamp)),
            ("error_message"@, match r.error_message {
                Some(m) => JsonView::Str(m),
                None => JsonView::Null,
            }),
            ("retry_count"@, JsonView::Int(r.retry_count as i64)),
        ],
    )
}

/// The JSON form of a task state.
pub open spec fn encode_state(v: TaskStateView) -> JsonView {
    JsonView::Object(
        seq![
            ("status"@, JsonView::Str(v.status)),
            ("attempts"@, JsonView::Int(v.attempts as i64)),
            ("last_action"@, JsonView::Str(v.last_action)),
            ("success_criteria"@, JsonView::Array(str_items(v.success_criteria))),
            ("memory"@, JsonView::Array(pair_items(v.memory))),
            ("feedback"@, JsonView::Array(str_items(v.feedback))),
            ("start_time"@, JsonView::Int(v.start_time)),
            ("last_update"@, JsonView::Int(v.last_update)),
            ("action_results"@, JsonView::Array(v.action_results.map_values(|r: ResultView| encode_result(r)))),
            ("analysis"@, v.analysis),
        ],
    )
}

/// An integer that fits in `u32`.
pub open spec fn decode_u32(j: Option<JsonView>) -> Option<u32> {
    match json_as_int(j) {
        Some(n) => if 0 <= n <= u32::MAX {
            Some(n as u32)
        } else {
            None
        },
        None => None,
    }
}

/// A boolean.
pub open spec fn decode_bool(j: Option<JsonView>) -> Option<bool> {
    match j {
        Some(JsonView::Bool(b)) => Some(b),
        _ => None,
    }
}

/// An optional message: a string, or `null` for none.
pub open spec fn decode_message(j: Option<JsonView>) -> Option<Option<Seq<char>>> {
    match j {
        Some(JsonView::Str(m)) => Some(Some(m)),
        Some(JsonView::Null) => Some(None),
        _ => None,
    }
}

/// A list of strings, when every item is one.
pub open spec fn decode_strs(items: Option<Seq<JsonView>>) -> Option<Seq<Seq<char>>> {
    match items {
        Some(s) => if forall|i: int| 0 <= i < s.len() ==> #[trigger] s[i] is Str {
            Some(s.map_values(|x: JsonView| x->Str_0))
        } else {
            None
        },
        None => None,
    }
}

/// A key-value pair written as a two-item array of strings.
pub open spec fn decode_pair(j: JsonView) -> Option<(Seq<char>, Seq<char>)> {
    match j {
        JsonView::Array(p) => if p.len() == 2 && p[0] is Str && p[1] is Str {
            Some((p[0]->Str_0, p[1]->Str_0))
        } else {
            None
        },
        _ => None,
    }
}

/// A list of key-value pairs, when every item is one.
pub open spec fn decode_pairs(items: Option<Seq<JsonView>>) -> Option<Seq<(Seq<char>, Seq<char>)>> {
    match items {
        Some(s) => if forall|i: int| 0 <= i < s.len() ==> #[trigger] decode_pair(s[i]) is Some {
            Some(s.map_values(|x: JsonView| decode_pair(x).unwrap()))
        } else {
            None
        },
        None => None,
    }
}

/// An action result read from its JSON form.
pub open spec fn decode_result(j: JsonView) -> Option<ResultView> {
    match (
        str_field(j, "action_type"@),
        decode_bool(json_get(j, "success"@)),
        int_field(j, "timestamp"@),
        decode_message(json_get(j, "error_message"@)),
        decode_u32(json_get(j, "retry_count"@)),
    ) {
        (Some(a), Some(s), Some(t), Some(m), Some(c)) => Some(
            ResultView { action_type: a, success: s, timestamp: t, error_message: m, retry_count: c },
        ),
        _ => None,
    }
}

/// A list of action results, when every item is one.
pub open spec fn decode_results(items: Option<Seq<JsonView>>) -> Option<Seq<ResultView>> {
    match items {
        Some(s) => if forall|i: int| 0 <= i < s.len() ==> #[trigger] decode_result(s[i]) is Some {
            Some(s.map_values(|x: JsonView| decode_result(x).unwrap()))
        } else {
            None
        },
        None => None,
    }
}

/// A task state read from its JSON form.
pub open spec fn decode_state(j: JsonView) -> Option<TaskStateView> {
    match (
        str_field(j, "status"@),
        decode_u32(json_get(j, "attempts"@)),
        str_field(j, "last_action"@),
        decode_strs(array_field(j, "success_criteria"@)),
        decode_pairs(array_field(j, "memory"@)),
        decode_strs(array_field(j, "feedback"@)),
        int_field(j, "start_time"@),
        int_field(j, "last_update"@),
        decode_results(array_field(j, "action_results"@)),
        json_get(j, "analysis"@),
    ) {
        (
            Some(status),
            Some(attempts),
            Some(last_action),
            Some(success_criteria),
            Some(memory),
            Some(feedback),
            Some(start_time),
            Some(last_update),
            Some(action_results),
            Some(analysis),
        ) => Some(
            TaskStateView {
                status,
                attempts,
                last_action,
                success_criteria,
                memory,
                feedback,
                start_time,
                last_update,
                action_results,
                analysis,
            },
        ),
        _ => None,
    }
}

proof fn lemma_result_round_trip(r: ResultView)
    ensures
        decode_result(encode_result(r)) == Some(r),
{
    reveal_strlit("action_type");
    reveal_strlit("success");
    reveal_strlit("timestamp");
    reveal_strlit("error_message");
    reveal_strlit("retry_count");
    let es = encode_result(r)->Object_0;
    assert(es[0].0.len() == 11 && es[1].0.len() == 7 && es[2].0.len() == 9);
    assert(es[3].0.len() == 13 && es[4].0.len() == 11);
    assert(es[0].0[0] != es[4].0[0]);
    lemma_entries_get_at(es, 0, "action_type"@);
    lemma_entries_get_at(es, 1, "success"@);
    lemma_entries_get_at(es, 2, "timestamp"@);
    lemma_entries_get_at(es, 3, "error_message"@);
    lemma_entries_get_at(es, 4, "retry_count"@);
}

/// Reading back the JSON form of a task state gives the same state, field
/// by field.
pub proof fn lemma_state_round_trip(v: TaskStateView)
    ensures
        decode_state(encode_state(v)) == Some(v),
{
    reveal_strlit("status");
    reveal_strlit("attempts");
    reveal_strlit("last_action");
    reveal_strlit("success_criteria");
    reveal_strlit("memory");
    reveal_strlit("feedback");
    reveal_strlit("start_time");
    reveal_strlit("last_update");
    reveal_strlit("action_results");
    reveal_strlit("analysis");
    let es = encode_state(v)->Object_0;
    assert(es[0].0.len() == 6 && es[1].0.len() == 8 && es[2].0.len() == 11);
    assert(es[3].0.len() == 16 && es[4].0.len() == 6 && es[5].0.len() == 8);
    assert(es[6].0.len() == 10 && es[7].0.len() == 11 && es[8].0.len() == 14);
    assert(es[9].0.len() == 8);
    assert(es[0].0[0] != es[4].0[0]);
    assert(es[1].0[0] != es[5].0[0]);
    assert(es[1].0[1] != es[9].0[1]);
    assert(es[5].0[0] != es[9].0[0]);
    assert(es[2].0[5] != es[7].0[5]);
    lemma_entries_get_at(es, 0, "status"@);
    lemma_entries_get_at(es, 1, "attempts"@);
    lemma_entries_get_at(es, 2, "last_action"@);
    lemma_entries_get_at(es, 3, "success_criteria"@);
    lemma_entries_get_at(es, 4, "memory"@);
    lemma_entries_get_at(es, 5, "feedback"@);
    lemma_entries_get_at(es, 6, "start_time"@);
    lemma_entries_get_at(es, 7, "last_update"@);
    lemma_entries_get_at(es, 8, "action_results"@);
    lemma_entries_get_at(es, 9, "analysis"@);
    assert(str_items(v.success_criteria).map_values(|x: JsonView| x->Str_0) =~= v.success_criteria);
    assert(str_items(v.feedback).map_values(|x: JsonView| x->Str_0) =~= v.feedback);
    let ps = pair_items(v.memory);
    assert(forall|i: int| 0 <= i < ps.len() ==> decode_pair(#[trigger] ps[i]) == Some(v.memory[i]));
    assert(ps.map_values(|x: JsonView| decode_pair(x).unwrap()) =~= v.memory);
    let rs = v.action_results.map_values(|r: ResultView| encode_result(r));
    assert forall|i: int| 0 <= i < rs.len() implies decode_result(#[trigger] rs[i]) == Some(
        v.action_results[i],
    ) by {
        lemma_result_round_trip(v.action_results[i]);
    }
    assert(rs.map_values(|x: JsonView| decode_result(x).unwrap()) =~= v.action_results);
}

fn field(key: &str, value: Json) -> (r: (String, Json))
    ensures
        r.0@ == key@,
        r.1@ == value@,
{
    (String::from_str(key), value)
}

fn strings_to_json(v: &Vec<String>) -> (r: Json)
    ensures
        r@ == JsonView::Array(str_items(strs(v@))),
{
    let mut out: Vec<Json> = Vec::new();
    let mut i: usize = 0;
    while i < v.len()
        invariant
            i <= v@.len(),
            out@.len() == i,
            forall|k: int| 0 <= k < i ==> (#[trigger] out@[k])@ == JsonView::Str(v@[k]@),
        decreases v.len() - i,
    {
        out.push(Json::Str(v[i].clone()));
        i = i + 1;
    }
    proof {
        lemma_array_view(out);
        assert(items_view(out@) =~= str_items(strs(v@)));
    }
    Json::Array(out)
}

fn strings_from_json(items: &Vec<Json>) -> (r: Option<Vec<String>>)
    ensures
        match r {
            Some(v) => decode_strs(Some(items_view(items@))) == Some(strs(v@)),
            None => decode_strs(Some(items_view(items@))) is None,
        },
{
    let ghost iv = items_view(items@);
    let mut out: Vec<String> = Vec::new();
    let mut i: usize = 0;
    while i < items.len()
        invariant
            iv == items_view(items@),
            i <= items@.len(),
            out@.len() == i,
            forall|k: int| 0 <= k < i ==> #[trigger] iv[k] == JsonView::Str(out@[k]@),
        decreases items.len() - i,
    {
        match &items[i] {
            Json::Str(s) => {
                out.push(s.clone());
            },
            _ => {
                assert(!(iv[i as int] is Str));
                return None;
            },
        }
        i = i + 1;
    }
    assert(iv.map_values(|x: JsonView| x->Str_0) =~= strs(out@));
    Some(out)
}

fn pairs_to_json(m: &Vec<(String, String)>) -> (r: Json)
    ensures
        r@ == JsonView::Array(pair_items(memory_view(m@))),
{
    let mut out: Vec<Json> = Vec::new();
    let mut i: usize = 0;
    while i < m.len()
        invariant
            i <= m@.len(),
            out@.len() == i,
            forall|k: int|
                0 <= k < i ==> (#[trigger] out@[k])@ == JsonView::Array(
                    seq![JsonView::Str(m@[k].0@), JsonView::Str(m@[k].1@)],
                ),
        decreases m.len() - i,
    {
        let mut pair: Vec<Json> = Vec::new();
        pair.push(Json::Str(m[i].0.clone()));
        pair.push(Json::Str(m[i].1.clone()));
        proof {
            lemma_array_view(pair);
            assert(items_view(pair@) =~= seq![JsonView::Str(m@[i as int].0@), JsonView::Str(m@[i as int].1@)]);
        }
        out.push(Json::Array(pair));
        i = i + 1;
    }
    proof {
        lemma_array_view(out);
        assert(items_view(out@) =~= pair_items(memory_view(m@)));
    }
    Json::Array(out)
}

fn pair_from_json(j: &Json) -> (r: Option<(String, String)>)
    ensures
        match r {
            Some(p) => decode_pair(j@) == Some((p.0@, p.1@)),
            None => decode_pair(j@) is None,
        },
{
    match j {
        Json::Array(p) => {
            proof {
                lemma_array_view(*p);
            }
            if p.len() != 2 {
                return None;
            }
            match (&p[0], &p[1]) {
                (Json::Str(a), Json::Str(b)) => Some((a.clone(), b.clone())),
                _ => None,
            }
        },
        _ => None,
    }
}

fn pairs_from_json(items: &Vec<Json>) -> (r: Option<Vec<(String, String)>>)
    ensures
        match r {
            Some(v) => decode_pairs(Some(items_view(items@))) == Some(memory_view(v@)),
            None => decode_pairs(Some(items_view(items@))) is None,
        },
{
    let ghost iv = items_view(items@);
    let mut out: Vec<(String, String)> = Vec::new();
    let mut i: usize = 0;
    while i < items.len()
        invariant
            iv == items_view(items@),
            i <= items@.len(),
            out@.len() == i,
            forall|k: int|
                0 <= k < i ==> #[trigger] decode_pair(iv[k]) == Some((out@[k].0@, out@[k].1@)),
        decreases items.len() - i,
    {
        match pair_from_json(&items[i]) {
            Some(p) => {
                out.push(p);
            },
            None => {
                assert(decode_pair(iv[i as int]) is None);
                return None;
            },
        }
        i = i + 1;
    }
    assert(iv.map_values(|x: JsonView| decode_pair(x).unwrap()) =~= memory_view(out@));
    Some(out)
}

fn u32_at(j: &Json, key: &str) -> (r: Option<u32>)
    ensures
        r == decode_u32(json_get(j@, key@)),
{
    match j.int_at(key) {
        Some(n) => if 0 <= n && n <= u32::MAX as i64 {
            Some(n as u32)
        } else {
            None
        },
        None => None,
    }
}

fn bool_at(j: &Json, key: &str) -> (r: Option<bool>)
    ensures
        r == decode_bool(json_get(j@, key@)),
{
    match j.get(key) {
        Some(Json::Bool(b)) => Some(*b),
        _ => None,
    }
}

fn message_at(j: &Json, key: &str) -> (r: Option<Option<String>>)
    ensures
        match r {
            Some(m) => decode_message(json_get(j@, key@)) == Some(opt_str_view(m)),
            None => decode_message(json_get(j@, key@)) is None,
        },
{
    match j.get(key) {
        Some(Json::Str(m)) => Some(Some(m.clone())),
        Some(Json::Null) => Some(None),
        _ => None,
    }
}

fn string_at(j: &Json, key: &str) -> (r: Option<String>)
    ensures
        match r {
            Some(s) => str_field(j@, key@) == Some(s@),
            None => str_field(j@, key@) is None,
        },
{
    match j.str_at(key) {
        Some(s) => Some(String::from_str(s)),
        None => None,
    }
}

impl ActionResult {
    /// The JSON form of this result.
    pub fn to_json(&self) -> (r: Json)
        ensures
            r@ == encode_result(self@),
    {
        let message = match &self.error_message {
            Some(m) => Json::Str(m.clone()),
            None => Json::Null,
        };
        let mut es: Vec<(String, Json)> = Vec::new();
        es.push(field("action_type", Json::Str(self.action_type.clone())));
        es.push(field("success", Json::Bool(self.success)));
        es.push(field("timestamp", Json::Int(self.timestamp)));
        es.push(field("error_message", message));
        es.push(field("retry_count", Json::Int(self.retry_count as i64)));
        let r = Json::Object(es);
        assert(r@->Object_0 =~= encode_result(self@)->Object_0);
        r
    }

    /// A result read from its JSON form.
    pub fn from_json(j: &Json) -> (r: Option<ActionResult>)
        ensures
            match r {
                Some(x) => decode_result(j@) == Some(x@),
                None => decode_result(j@) is None,
            },
    {
        match (
            string_at(j, "action_type"),
            bool_at(j, "success"),
            j.int_at("timestamp"),
            message_at(j, "error_message"),
            u32_at(j, "retry_count"),
        ) {
            (Some(action_type), Some(success), Some(timestamp), Some(error_message), Some(
                retry_count,
            )) => Some(ActionResult { action_type, success, timestamp, error_message, retry_count }),
            _ => None,
        }
    }
}

fn results_to_json(v: &Vec<ActionResult>) -> (r: Json)
    ensures
        r@ == JsonView::Array(
            v@.map_values(|x: ActionResult| x@).map_values(|x: ResultView| encode_result(x)),
        ),
{
    let mut out: Vec<Json> = Vec::new();
    let mut i: usize = 0;
    while i < v.len()
        invariant
            i <= v@.len(),
            out@.len() == i,
            forall|k: int| 0 <= k < i ==> (#[trigger] out@[k])@ == encode_result(v@[k]@),
        decreases v.len() - i,
    {
        out.push(v[i].to_json());
        i = i + 1;
    }
    proof {
        lemma_array_view(out);
        assert(items_view(out@) =~= v@.map_values(|x: ActionResult| x@).map_values(
            |x: ResultView| encode_result(x),
        ));
    }
    Json::Array(out)
}

fn results_from_json(items: &Vec<Json>) -> (r: Option<Vec<ActionResult>>)
    ensures
        match r {
            Some(v) => decode_results(Some(items_view(items@))) == Some(
                v@.map_values(|x: ActionResult| x@),
            ),
            None => decode_results(Some(items_view(items@))) is None,
        },
{
    let ghost iv = items_view(items@);
    let mut out: Vec<ActionResult> = Vec::new();
    let mut i: usize = 0;
    while i < items.len()
        invariant
            iv == items_view(items@),
            i <= items@.len(),
            out@.len() == i,
            forall|k: int| 0 <= k < i ==> #[trigger] decode_result(iv[k]) == Some(out@[k]@),
        decreases items.len() - i,
    {
        match ActionResult::from_json(&items[i]) {
            Some(x) => {
                out.push(x);
            },
            None => {
                assert(decode_result(iv[i as int]) is None);
                return None;
            },
        }
        i = i + 1;
    }
    assert(iv.map_values(|x: JsonView| decode_result(x).unwrap()) =~= out@.map_values(
        |x: ActionResult| x@,
    ));
    Some(out)
}

impl TaskState {
    /// The on-disk JSON form of this state.
    pub fn to_json(&self) -> (r: Json)
        ensures
            r@ == encode_state(self@),
    {
        let mut es: Vec<(String, Json)> = Vec::new();
        es.push(field("status", Json::Str(self.status.clone())));
        es.push(field("attempts", Json::Int(self.attempts as i64)));
        es.push(field("last_action", Json::Str(self.last_action.clone())));
        es.push(field("success_criteria", strings_to_json(&self.success_criteria)));
        es.push(field("memory", pairs_to_json(&self.memory)));
        es.push(field("feedback", strings_to_json(&self.feedback)));
        es.push(field("start_time", Json::Int(self.start_time)));
        es.push(field("last_update", Json::Int(self.last_update)));
        es.push(field("action_results", results_to_json(&self.action_results)));
        es.push(field("analysis", copy_json(&self.analysis)));
        let r = Json::Object(es);
        assert(self@.action_results.map_values(|x: ResultView| encode_result(x)) =~= self.action_results@.map_values(|x: ActionResult| x@).map_values(|x: ResultView| encode_result(x)));
        assert(r@->Object_0 =~= encode_state(self@)->Object_0);
        r
    }

    /// The on-disk text of this state.
    pub fn to_text(&self) -> (r: String)
        ensures
            r@ == printed_json(encode_state(self@)),
    {
        json_text(&self.to_json())
    }

    /// A state read from its on-disk text; `None` when the text does not
    /// parse or does not hold a state.
    pub fn from_text(text: &str) -> (r: Option<TaskState>)
        ensures
            match r {
                Some(t) => parsed_json(text@) is Some && decode_state(parsed_json(text@).unwrap())
                    == Some(t@),
                None => parsed_json(text@) is None || decode_state(parsed_json(text@).unwrap()) is None,
            },
    {
        match parse_json(text) {
            Some(j) => TaskState::from_json(&j),
            None => None,
        }
    }

    /// A state read from its on-disk JSON form.
    pub fn from_json(j: &Json) -> (r: Option<TaskState>)
        ensures
            match r {
                Some(t) => decode_state(j@) == Some(t@),
                None => decode_state(j@) is None,
            },
    {
        let status = match string_at(j, "status") {
            Some(s) => s,
            None => {
                return None;
            },
        };
        let attempts = match u32_at(j, "attempts") {
            Some(n) => n,
            None => {
                return None;
            },
        };
        let last_action = match string_at(j, "last_action") {
            Some(s) => s,
            None => {
                return None;
            },
        };
        let success_criteria = match j.array_at("success_criteria") {
            Some(items) => match strings_from_json(items) {
                Some(v) => v,
                None => {
                    return None;
                },
            },
            None => {
                return None;
            },
        };
        let memory = match j.array_at("memory") {
            Some(items) => match pairs_from_json(items) {
                Some(v) => v,
                None => {
                    return None;
                },
            },
            None => {
                return None;
            },
        };
        let feedback = match j.array_at("feedback") {
            Some(items) => match strings_from_json(items) {
                Some(v) => v,
                None => {
                    return None;
                },
            },
            None => {
                return None;
            },
        };
        let start_time = match j.int_at("start_time") {
            Some(n) => n,
            None => {
                return None;
            },
        };
        let last_update = match j.int_at("last_update") {
            Some(n) => n,
            None => {
                return None;
            },
        };
        let action_results = match j.array_at("action_results") {
            Some(items) => match results_from_json(items) {
                Some(v) => v,
                None => {
                    return None;
                },
            },
            None => {
                return None;
            },
        };
        let analysis = match j.get("analysis") {
            Some(a) => copy_json(a),
            None => {
                return None;
            },
        };
        Some(
            TaskState {
                status,
                attempts,
                last_action,
                success_criteria,
                memory,
                feedback,
                start_time,
                last_update,
                action_results,
                analysis,
            },
        )
    }
}

} // verus!
