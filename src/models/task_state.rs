//! The state of a task across the iterations of the agent.
use crate::actions::verification::{retries_exhausted, MAX_RETRIES};
use crate::json::{
    array_field, items_view, json_get, json_is_object, opt_view, parse_json, parsed_json, str_field, Json,
    JsonView,
};
use crate::models::action_result::{unix_time, ActionResult, ResultView};
use crate::response::{analysis_read, parse_analysis};
use crate::text::{contains_str, is_substring, str_eq};
use vstd::prelude::*;
use vstd::string::*;

verus! {

/// The feedback label of an entry: the text before its first colon (the
/// whole entry when it has none).
pub open spec fn label(s: Seq<char>) -> Seq<char>
    decreases s.len(),
{
    if s.len() == 0 || s[0] == ':' {
        Seq::empty()
    } else {
        seq![s[0]] + label(s.drop_first())
    }
}

proof fn lemma_label_prefix(s: Seq<char>, i: int)
    requires
        0 <= i <= s.len(),
        forall|k: int| 0 <= k < i ==> s[k] != ':',
        i == s.len() || s[i] == ':',
    ensures
        label(s) == s.subrange(0, i),
    decreases i,
{
    if i > 0 {
        let rest = s.drop_first();
        assert forall|k: int| 0 <= k < i - 1 implies rest[k] != ':' by {
            assert(rest[k] == s[k + 1]);
        }
        lemma_label_prefix(rest, i - 1);
        assert(s.subrange(0, i) =~= seq![s[0]] + rest.subrange(0, i - 1));
    } else {
        assert(s.subrange(0, 0) =~= Seq::<char>::empty());
    }
}

/// The label of a feedback entry.
pub fn feedback_label(entry: &str) -> (r: &str)
    ensures
        r@ == label(entry@),
{
    let n = entry.unicode_len();
    let mut i: usize = 0;
    while i < n
        invariant
            n == entry@.len(),
            i <= n,
            forall|k: int| 0 <= k < i ==> entry@[k] != ':',
        decreases n - i,
    {
        if entry.get_char(i) == ':' {
            proof {
                lemma_label_prefix(entry@, i as int);
            }
            return entry.substring_char(0, i);
        }
        i = i + 1;
    }
    proof {
        lemma_label_prefix(entry@, i as int);
    }
    entry.substring_char(0, i)
}

/// Whether a task with these attempts and feedback should pause: after more
/// than ten attempts, or when the three most recent feedback entries carry
/// the same label.
pub open spec fn pause_due(attempts: u32, feedback: Seq<Seq<char>>) -> bool {
    attempts > 10 || repeated_label(feedback)
}

/// The three most recent feedback entries carry the same label.
pub open spec fn repeated_label(feedback: Seq<Seq<char>>) -> bool {
    let n = feedback.len();
    n >= 3 && label(feedback[n - 1]) == label(feedback[n - 2]) && label(feedback[n - 2]) == label(
        feedback[n - 3],
    )
}

/// The attempt limit: with eleven attempts a task pauses whatever its
/// feedback; with ten it pauses only on a repeated label.
pub proof fn lemma_pause_attempts_boundary(feedback: Seq<Seq<char>>)
    ensures
        pause_due(11, feedback),
        pause_due(10, feedback) == repeated_label(feedback),
{
}

/// The loop detector: within the attempt limit, a task pauses exactly when
/// the three most recent feedback entries carry the same label; it does not
/// when any of the three differs.
pub proof fn lemma_pause_on_repeated_label(attempts: u32, feedback: Seq<Seq<char>>)
    requires
        attempts <= 10,
        feedback.len() >= 3,
    ensures
        ({
            let n = feedback.len();
            label(feedback[n - 1]) == label(feedback[n - 2]) && label(feedback[n - 2]) == label(
                feedback[n - 3],
            ) <==> pause_due(attempts, feedback)
        }),
{
}

/// The characters of each string of a list.
pub open spec fn strs(v: Seq<String>) -> Seq<Seq<char>> {
    v.map_values(|s: String| s@)
}

/// The characters of each entry of a key-value memory.
pub open spec fn memory_view(m: Seq<(String, String)>) -> Seq<(Seq<char>, Seq<char>)> {
    m.map_values(|e: (String, String)| (e.0@, e.1@))
}

/// Each key of a memory occurs once.
pub open spec fn keys_unique(m: Seq<(Seq<char>, Seq<char>)>) -> bool {
    forall|i: int, j: int| 0 <= i < j < m.len() ==> m[i].0 != m[j].0
}

/// The memory with `key` set to `value`: the entry holding `key` takes the
/// new value, or a new entry is appended.
pub open spec fn assoc_set(m: Seq<(Seq<char>, Seq<char>)>, key: Seq<char>, value: Seq<char>) -> Seq<
    (Seq<char>, Seq<char>),
>
    decreases m.len(),
{
    if m.len() == 0 {
        seq![(key, value)]
    } else if m[0].0 == key {
        m.update(0, (key, value))
    } else {
        seq![m[0]] + assoc_set(m.drop_first(), key, value)
    }
}

proof fn lemma_assoc_set(m: Seq<(Seq<char>, Seq<char>)>, key: Seq<char>, value: Seq<char>, i: int)
    requires
        0 <= i <= m.len(),
        forall|k: int| 0 <= k < i ==> m[k].0 != key,
        i == m.len() || m[i].0 == key,
    ensures
        i == m.len() ==> assoc_set(m, key, value) == m.push((key, value)),
        i < m.len() ==> assoc_set(m, key, value) == m.update(i, (key, value)),
    decreases i,
{
    if i > 0 {
        let rest = m.drop_first();
        assert forall|k: int| 0 <= k < i - 1 implies rest[k].0 != key by {
            assert(rest[k] == m[k + 1]);
        }
        lemma_assoc_set(rest, key, value, i - 1);
        if i == m.len() {
            assert(seq![m[0]] + rest.push((key, value)) =~= m.push((key, value)));
        } else {
            assert(seq![m[0]] + rest.update(i - 1, (key, value)) =~= m.update(i, (key, value)));
        }
    }
}

/// What an analysis adds to memory: its `context` as `last_context`, and
/// the `window_title` of its `state` object as `last_window`.
pub open spec fn remembered(m: Seq<(Seq<char>, Seq<char>)>, analysis: JsonView) -> Seq<
    (Seq<char>, Seq<char>),
> {
    let m1 = match str_field(analysis, "context"@) {
        Some(c) => assoc_set(m, "last_context"@, c),
        None => m,
    };
    let state = json_get(analysis, "state"@);
    if json_is_object(state) {
        match str_field(state.unwrap(), "window_title"@) {
            Some(w) => assoc_set(m1, "last_window"@, w),
            None => m1,
        }
    } else {
        m1
    }
}

/// The string items of a list; other items are skipped.
pub open spec fn string_items(items: Seq<JsonView>) -> Seq<Seq<char>>
    decreases items.len(),
{
    if items.len() == 0 {
        Seq::empty()
    } else {
        let rest = string_items(items.drop_last());
        match items.last() {
            JsonView::Str(s) => rest.push(s),
            _ => rest,
        }
    }
}

/// The challenges that an analysis reports, as feedback entries.
pub open spec fn challenges_of(analysis: JsonView) -> Seq<Seq<char>> {
    match array_field(analysis, "challenges"@) {
        Some(items) => string_items(items),
        None => Seq::empty(),
    }
}

/// The type of the last action of a plan that is a JSON array.
pub open spec fn planned_last_action(plan: Option<JsonView>) -> Option<Seq<char>> {
    match plan {
        Some(JsonView::Array(items)) => if items.len() > 0 {
            str_field(items.last(), "action"@)
        } else {
            None
        },
        _ => None,
    }
}

/// Whether the analysis reports any challenge.
pub open spec fn has_challenges(analysis: Option<JsonView>) -> bool {
    match analysis {
        Some(j) => match array_field(j, "challenges"@) {
            Some(items) => items.len() > 0,
            None => false,
        },
        None => false,
    }
}

/// `new` is `old` after one iteration's update with a parsed analysis and
/// plan (each `None` when its text did not parse), apart from the time of
/// the update.
pub open spec fn updated(
    old: TaskState,
    analysis: Option<JsonView>,
    plan: Option<JsonView>,
    new: TaskState,
) -> bool {
    &&& new.attempts == old.attempts + 1
    &&& new.last_action@ == match planned_last_action(plan) {
        Some(t) => t,
        None => old.last_action@,
    }
    &&& match analysis {
        Some(j) => {
            &&& new.analysis@ == j
            &&& memory_view(new.memory@) == remembered(memory_view(old.memory@), j)
            &&& strs(new.feedback@) == strs(old.feedback@) + challenges_of(j)
        },
        None => {
            &&& new.analysis == old.analysis
            &&& new.memory == old.memory
            &&& new.feedback == old.feedback
        },
    }
    &&& new.status == old.status
    &&& new.success_criteria == old.success_criteria
    &&& new.start_time == old.start_time
    &&& new.action_results == old.action_results
}

/// Whether the task counts as complete against an analysis text (and that
/// text parsed, when it parses): at least two attempts, every criterion
/// occurring verbatim in the text, no challenge reported, and some action
/// planned.
pub open spec fn completion_due(ts: TaskState, text: Seq<char>, parsed: Option<JsonView>) -> bool {
    &&& ts.attempts >= 2
    &&& forall|i: int|
        0 <= i < ts.success_criteria@.len() ==> is_substring(
            #[trigger] ts.success_criteria@[i]@,
            text,
        )
    &&& !has_challenges(parsed)
    &&& ts.last_action@.len() > 0
}

/// The task state: status (`in_progress`, `completed`, `paused`, `failed`
/// or `task_done`), attempts, the last planned action, the completion
/// criteria, memory, feedback, times, the log of action results and the
/// last screen analysis.
#[derive(Debug)]
pub struct TaskState {
    pub status: String,
    pub attempts: u32,
    pub last_action: String,
    pub success_criteria: Vec<String>,
    /// Key-value memory; each key occurs once.
    pub memory: Vec<(String, String)>,
    pub feedback: Vec<String>,
    pub start_time: i64,
    pub last_update: i64,
    pub action_results: Vec<ActionResult>,
    pub analysis: Json,
}

/// The mathematical form of a `TaskState`.
pub ghost struct TaskStateView {
    pub status: Seq<char>,
    pub attempts: u32,
    pub last_action: Seq<char>,
    pub success_criteria: Seq<Seq<char>>,
    pub memory: Seq<(Seq<char>, Seq<char>)>,
    pub feedback: Seq<Seq<char>>,
    pub start_time: i64,
    pub last_update: i64,
    pub action_results: Seq<ResultView>,
    pub analysis: JsonView,
}

impl View for TaskState {
    type V = TaskStateView;

    open spec fn view(&self) -> TaskStateView {
        TaskStateView {
            status: self.status@,
            attempts: self.attempts,
            last_action: self.last_action@,
            success_criteria: strs(self.success_criteria@),
            memory: memory_view(self.memory@),
            feedback: strs(self.feedback@),
            start_time: self.start_time,
            last_update: self.last_update,
            action_results: self.action_results@.map_values(|r: ActionResult| r@),
            analysis: self.analysis@,
        }
    }
}

/// The completion criteria that a fresh task starts with.
pub open spec fn default_criteria() -> Seq<Seq<char>> {
    seq!["Task completed"@, "Information found"@, "Research complete"@, "Task done"@]
}

/// A fresh task: in progress, with no attempts, memory, feedback or
/// results, the default criteria and an empty analysis.
pub open spec fn is_fresh(r: TaskState) -> bool {
    &&& r.status@ == "in_progress"@
    &&& r.attempts == 0
    &&& r.last_action@.len() == 0
    &&& strs(r.success_criteria@) == default_criteria()
    &&& r.memory@.len() == 0
    &&& r.feedback@.len() == 0
    &&& r.action_results@.len() == 0
    &&& r.analysis@ == JsonView::Object(Seq::empty())
    &&& r.start_time == r.last_update
}

impl TaskState {
    /// Well-formed: each memory key occurs once.
    pub open spec fn wf(&self) -> bool {
        keys_unique(memory_view(self.memory@))
    }

    /// A fresh task in progress, with no attempts, memory, feedback or results.
    pub fn new() -> (r: TaskState)
        ensures
            is_fresh(r),
            r.wf(),
    {
        let mut criteria: Vec<String> = Vec::new();
        criteria.push(String::from_str("Task completed"));
        criteria.push(String::from_str("Information found"));
        criteria.push(String::from_str("Research complete"));
        criteria.push(String::from_str("Task done"));
        assert(strs(criteria@) =~= default_criteria());
        let now = unix_time();
        let analysis = Json::Object(Vec::new());
        assert(analysis@->Object_0 =~= Seq::empty());
        TaskState {
            status: String::from_str("in_progress"),
            attempts: 0,
            last_action: String::new(),
            success_criteria: criteria,
            memory: Vec::new(),
            feedback: Vec::new(),
            start_time: now,
            last_update: now,
            action_results: Vec::new(),
            analysis,
        }
    }

    /// Whether the task should pause: too many attempts, or a loop of the
    /// same feedback label three times running.
    pub fn should_pause(&self) -> (r: bool)
        ensures
            r == pause_due(self.attempts, strs(self.feedback@)),
    {
        if self.attempts > 10 {
            return true;
        }
        let n = self.feedback.len();
        if n < 3 {
            return false;
        }
        let a = feedback_label(self.feedback[n - 1].as_str());
        let b = feedback_label(self.feedback[n - 2].as_str());
        let c = feedback_label(self.feedback[n - 3].as_str());
        str_eq(a, b) && str_eq(b, c)
    }

    /// Puts the task in the `task_done` state.
    pub fn set_task_done(&mut self)
        ensures
            final(self).status@ == "task_done"@,
            final(self).attempts == old(self).attempts,
            final(self).action_results == old(self).action_results,
            final(self).feedback == old(self).feedback,
            final(self).memory == old(self).memory,
            final(self).last_action == old(self).last_action,
            final(self).analysis == old(self).analysis,
            final(self).success_criteria == old(self).success_criteria,
            final(self).start_time == old(self).start_time,
    {
        self.status = String::from_str("task_done");
        self.last_update = unix_time();
    }

    /// Pauses the task when the result has used up its retries without
    /// success, and says whether it did.
    pub fn pause_if_exhausted(&mut self, result: &ActionResult) -> (r: bool)
        ensures
            r == retries_exhausted(result.success, result.retry_count),
            r ==> final(self).status@ == "paused"@,
            !r ==> final(self).status == old(self).status,
            final(self).attempts == old(self).attempts,
            final(self).action_results == old(self).action_results,
            final(self).feedback == old(self).feedback,
            final(self).memory == old(self).memory,
            final(self).last_action == old(self).last_action,
            final(self).analysis == old(self).analysis,
            final(self).success_criteria == old(self).success_criteria,
            final(self).start_time == old(self).start_time,
    {
        if !result.success && result.retry_count >= MAX_RETRIES {
            self.status = String::from_str("paused");
            self.last_update = unix_time();
            true
        } else {
            false
        }
    }

    /// Appends a result to the log of action results.
    pub fn add_action_result(&mut self, result: ActionResult)
        ensures
            final(self).action_results@ == old(self).action_results@.push(result),
            final(self).status == old(self).status,
            final(self).attempts == old(self).attempts,
            final(self).feedback == old(self).feedback,
            final(self).memory == old(self).memory,
            final(self).last_action == old(self).last_action,
            final(self).analysis == old(self).analysis,
            final(self).success_criteria == old(self).success_criteria,
            final(self).start_time == old(self).start_time,
    {
        self.action_results.push(result);
    }

    /// Sets `key` to `value` in memory.
    pub fn remember(&mut self, key: &str, value: &str)
        ensures
            memory_view(final(self).memory@) == assoc_set(memory_view(old(self).memory@), key@, value@),
            old(self).wf() ==> final(self).wf(),
            final(self).status == old(self).status,
            final(self).attempts == old(self).attempts,
            final(self).last_action == old(self).last_action,
            final(self).success_criteria == old(self).success_criteria,
            final(self).feedback == old(self).feedback,
            final(self).start_time == old(self).start_time,
            final(self).last_update == old(self).last_update,
            final(self).action_results == old(self).action_results,
            final(self).analysis == old(self).analysis,
    {
        let ghost m = memory_view(self.memory@);
        let n = self.memory.len();
        let mut i: usize = 0;
        while i < n
            invariant
                *self == *old(self),
                n == self.memory@.len(),
                m == memory_view(self.memory@),
                i <= n,
                forall|k: int| 0 <= k < i ==> m[k].0 != key@,
            decreases n - i,
        {
            if str_eq(self.memory[i].0.as_str(), key) {
                proof {
                    lemma_assoc_set(m, key@, value@, i as int);
                }
                self.memory[i] = (String::from_str(key), String::from_str(value));
                assert(memory_view(self.memory@) =~= m.update(i as int, (key@, value@)));
                assert(forall|k: int|
                    0 <= k < n ==> (#[trigger] memory_view(self.memory@)[k]).0 == m[k].0);
                return;
            }
            i = i + 1;
        }
        proof {
            lemma_assoc_set(m, key@, value@, n as int);
        }
        self.memory.push((String::from_str(key), String::from_str(value)));
        assert(memory_view(self.memory@) =~= m.push((key@, value@)));
        assert(forall|k: int| 0 <= k < n ==> (#[trigger] memory_view(self.memory@)[k]) == m[k]);
    }

    /// Folds one iteration into the state: counts the attempt, takes the
    /// type of the plan's last action, and, when the analysis parsed, keeps
    /// it, remembers its context and window title, and appends its
    /// challenges to the feedback.
    pub fn update_with(&mut self, analysis: Option<Json>, plan: Option<Json>, now: i64)
        requires
            old(self).attempts < u32::MAX,
        ensures
            updated(*old(self), opt_view(analysis), opt_view(plan), *final(self)),
            final(self).last_update == now,
            old(self).wf() ==> final(self).wf(),
    {
        self.attempts = self.attempts + 1;
        self.last_update = now;
        match &plan {
            Some(Json::Array(items)) => {
                if items.len() > 0 {
                    match items[items.len() - 1].str_at("action") {
                        Some(t) => {
                            self.last_action = String::from_str(t);
                        },
                        None => {},
                    }
                }
            },
            _ => {},
        }
        match analysis {
            Some(j) => {
                let ghost m0 = memory_view(self.memory@);
                match j.str_at("context") {
                    Some(c) => {
                        self.remember("last_context", c);
                    },
                    None => {},
                }
                match j.get("state") {
                    Some(st) => match st {
                        Json::Object(_) => match st.str_at("window_title") {
                            Some(w) => {
                                self.remember("last_window", w);
                            },
                            None => {},
                        },
                        _ => {},
                    },
                    None => {},
                }
                assert(memory_view(self.memory@) == remembered(m0, j@));
                let ghost f0 = strs(self.feedback@);
                let ghost pre = *self;
                match j.array_at("challenges") {
                    Some(items) => {
                        let mut i: usize = 0;
                        while i < items.len()
                            invariant
                                i <= items@.len(),
                                strs(self.feedback@) == f0 + string_items(
                                    items_view(items@).subrange(0, i as int),
                                ),
                                self.attempts == pre.attempts,
                                self.last_update == pre.last_update,
                                self.last_action == pre.last_action,
                                self.memory == pre.memory,
                                self.status == pre.status,
                                self.success_criteria == pre.success_criteria,
                                self.start_time == pre.start_time,
                                self.action_results == pre.action_results,
                                self.analysis == pre.analysis,
                            decreases items.len() - i,
                        {
                            proof {
                                let s = items_view(items@).subrange(0, i + 1);
                                assert(s.drop_last() =~= items_view(items@).subrange(0, i as int));
                                assert(s.last() == items@[i as int]@);
                            }
                            match &items[i] {
                                Json::Str(c) => {
                                    let ghost before = strs(self.feedback@);
                                    self.feedback.push(c.clone());
                                    assert(strs(self.feedback@) =~= before.push(c@));
                                },
                                _ => {},
                            }
                            i = i + 1;
                        }
                        assert(items_view(items@).subrange(0, items@.len() as int) =~= items_view(
                            items@,
                        ));
                    },
                    None => {
                        assert(f0 + Seq::<Seq<char>>::empty() =~= f0);
                    },
                }
                self.analysis = j;
            },
            None => {},
        }
    }

    /// Folds one iteration's analysis and plan texts into the state (see
    /// `update_with`): the analysis is read with repair and fallback, the
    /// plan counts only if it parses as JSON.
    pub fn update(&mut self, analysis: &str, plan: &str)
        requires
            old(self).attempts < u32::MAX,
        ensures
            analysis_read(analysis@, final(self).analysis@),
            updated(*old(self), Some(final(self).analysis@), parsed_json(plan@), *final(self)),
            old(self).wf() ==> final(self).wf(),
    {
        let a = parse_analysis(analysis);
        let p = parse_json(plan);
        let now = unix_time();
        self.update_with(Some(a), p, now);
    }

    /// Whether the task counts as complete against an analysis text, given
    /// what that text parses to.
    pub fn is_complete_with(&self, analysis: &str, parsed: &Option<Json>) -> (r: bool)
        ensures
            r == completion_due(*self, analysis@, opt_view(*parsed)),
    {
        if self.attempts < 2 {
            return false;
        }
        let n = self.success_criteria.len();
        let mut i: usize = 0;
        while i < n
            invariant
                n == self.success_criteria@.len(),
                i <= n,
                forall|k: int|
                    0 <= k < i ==> is_substring(#[trigger] self.success_criteria@[k]@, analysis@),
            decreases n - i,
        {
            if !contains_str(analysis, self.success_criteria[i].as_str()) {
                return false;
            }
            i = i + 1;
        }
        let challenged = match parsed {
            Some(j) => match j.array_at("challenges") {
                Some(items) => items.len() > 0,
                None => false,
            },
            None => false,
        };
        !challenged && self.last_action.unicode_len() > 0
    }

    /// Whether the task counts as complete against an analysis text: at
    /// least two attempts, every criterion found verbatim in the text, no
    /// challenge in the parsed analysis, and some action planned.
    pub fn is_complete(&self, analysis: &str) -> (r: bool)
        ensures
            r == completion_due(*self, analysis@, parsed_json(analysis@)),
    {
        let parsed = parse_json(analysis);
        self.is_complete_with(analysis, &parsed)
    }
}

} // verus!
