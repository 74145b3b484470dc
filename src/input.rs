//! The operations that the agent hands to an input-injection layer, and the
//! vocabularies that name keys and buttons.
use crate::text::str_eq;
use vstd::prelude::*;
use vstd::string::*;

verus! {

/// A key that the agent presses.
#[derive(Debug, Clone, Copy, PartialEq, Eq, Structural)]
pub enum Key {
    Alt,
    Meta,
    Tab,
    Return,
    Escape,
    Control,
    Shift,
}

/// How a key or button is operated.
#[derive(Debug, Clone, Copy, PartialEq, Eq, Structural)]
pub enum Direction {
    Press,
    Release,
    Click,
}

/// A mouse button.
#[derive(Debug, Clone, Copy, PartialEq, Eq, Structural)]
pub enum MouseButton {
    Left,
    Right,
    Middle,
}

/// One primitive operation of the input-injection layer.
#[derive(Debug, PartialEq, Eq)]
pub enum InputOp {
    Key(Key, Direction),
    /// Absolute pointer placement.
    MoveTo(i64, i64),
    Button(MouseButton, Direction),
    /// Text injected as typed characters.
    Text(String),
    /// A pause, in milliseconds.
    Sleep(u64),
}

/// The mathematical form of an `InputOp`.
pub ghost enum OpView {
    Key(Key, Direction),
    MoveTo(i64, i64),
    Button(MouseButton, Direction),
    Text(Seq<char>),
    Sleep(u64),
}

impl View for InputOp {
    type V = OpView;

    open spec fn view(&self) -> OpView {
        match self {
            InputOp::Key(k, d) => OpView::Key(*k, *d),
            InputOp::MoveTo(x, y) => OpView::MoveTo(*x, *y),
            InputOp::Button(b, d) => OpView::Button(*b, *d),
            InputOp::Text(s) => OpView::Text(s@),
            InputOp::Sleep(ms) => OpView::Sleep(*ms),
        }
    }
}

/// The views of a list of operations.
pub open spec fn ops_view(ops: Seq<InputOp>) -> Seq<OpView> {
    ops.map_values(|o: InputOp| o@)
}

/// The key that a single key press names: `return` or `enter`, `tab`, `escape`.
pub open spec fn named_key(name: Seq<char>) -> Option<Key> {
    if name == "return"@ || name == "enter"@ {
        Some(Key::Return)
    } else if name == "tab"@ {
        Some(Key::Tab)
    } else if name == "escape"@ {
        Some(Key::Escape)
    } else {
        None
    }
}

/// The key that a modifier name stands for in a key combination.
pub open spec fn modifier_key(name: Seq<char>) -> Option<Key> {
    if name == "control"@ || name == "ctrl"@ {
        Some(Key::Control)
    } else if name == "cmd"@ || name == "meta"@ || name == "super"@ || name == "windows"@ {
        Some(Key::Meta)
    } else if name == "alt"@ {
        Some(Key::Alt)
    } else if name == "shift"@ {
        Some(Key::Shift)
    } else {
        None
    }
}

/// The letters that may end a key combination; each is typed as text.
pub open spec fn is_combination_letter(name: Seq<char>) -> bool {
    name == "t"@ || name == "w"@ || name == "r"@ || name == "l"@ || name == "a"@ || name == "c"@
        || name == "v"@ || name == "x"@ || name == "z"@
}

/// The button that a name stands for: `left`, `right` or `middle`.
pub open spec fn named_button(name: Seq<char>) -> Option<MouseButton> {
    if name == "left"@ {
        Some(MouseButton::Left)
    } else if name == "right"@ {
        Some(MouseButton::Right)
    } else if name == "middle"@ {
        Some(MouseButton::Middle)
    } else {
        None
    }
}

/// The key that a single key press names (the name already lower-cased).
pub fn key_for_name(name: &str) -> (r: Option<Key>)
    ensures
        r == named_key(name@),
{
    if str_eq(name, "return") || str_eq(name, "enter") {
        Some(Key::Return)
    } else if str_eq(name, "tab") {
        Some(Key::Tab)
    } else if str_eq(name, "escape") {
        Some(Key::Escape)
    } else {
        None
    }
}

/// The key that a modifier name stands for (the name already lower-cased).
pub fn modifier_for_name(name: &str) -> (r: Option<Key>)
    ensures
        r == modifier_key(name@),
{
    if str_eq(name, "control") || str_eq(name, "ctrl") {
        Some(Key::Control)
    } else if str_eq(name, "cmd") || str_eq(name, "meta") || str_eq(name, "super") || str_eq(
        name,
        "windows",
    ) {
        Some(Key::Meta)
    } else if str_eq(name, "alt") {
        Some(Key::Alt)
    } else if str_eq(name, "shift") {
        Some(Key::Shift)
    } else {
        None
    }
}

/// Whether a name may end a key combination.
pub fn combination_letter(name: &str) -> (r: bool)
    ensures
        r == is_combination_letter(name@),
{
    str_eq(name, "t") || str_eq(name, "w") || str_eq(name, "r") || str_eq(name, "l") || str_eq(
        name,
        "a",
    ) || str_eq(name, "c") || str_eq(name, "v") || str_eq(name, "x") || str_eq(name, "z")
}

/// The button that a name stands for.
pub fn button_for_name(name: &str) -> (r: Option<MouseButton>)
    ensures
        r == named_button(name@),
{
    if str_eq(name, "left") {
        Some(MouseButton::Left)
    } else if str_eq(name, "right") {
        Some(MouseButton::Right)
    } else if str_eq(name, "middle") {
        Some(MouseButton::Middle)
    } else {
        None
    }
}

/// The first name of `names` that stands for no modifier key.
pub open spec fn first_unknown_modifier(names: Seq<Seq<char>>) -> Option<Seq<char>>
    decreases names.len(),
{
    if names.len() == 0 {
        None
    } else if modifier_key(names[0]).is_none() {
        Some(names[0])
    } else {
        first_unknown_modifier(names.drop_first())
    }
}

proof fn lemma_first_unknown_modifier(names: Seq<Seq<char>>, i: int)
    requires
        0 <= i <= names.len(),
        forall|k: int| 0 <= k < i ==> modifier_key(#[trigger] names[k]).is_some(),
    ensures
        i == names.len() ==> first_unknown_modifier(names).is_none(),
        i < names.len() && modifier_key(names[i]).is_none() ==> first_unknown_modifier(names)
            == Some(names[i]),
    decreases i,
{
    if i > 0 {
        let rest = names.drop_first();
        assert forall|k: int| 0 <= k < i - 1 implies modifier_key(#[trigger] rest[k]).is_some() by {
            assert(rest[k] == names[k + 1]);
        }
        lemma_first_unknown_modifier(rest, i - 1);
        assert(modifier_key(names[0]).is_some());
        if i < names.len() {
            assert(rest[i - 1] == names[i]);
        }
    }
}

/// The key operations for modifiers pressed in the given order.
pub open spec fn modifier_presses(mods: Seq<Seq<char>>) -> Seq<OpView> {
    Seq::new(mods.len(), |i: int| OpView::Key(modifier_key(mods[i]).unwrap(), Direction::Press))
}

/// The key operations that release modifiers in the reverse of the given order.
pub open spec fn modifier_releases(mods: Seq<Seq<char>>) -> Seq<OpView> {
    Seq::new(
        mods.len(),
        |i: int| OpView::Key(modifier_key(mods[mods.len() - 1 - i]).unwrap(), Direction::Release),
    )
}

/// What a key combination does: press every name but the last as a
/// modifier, pause 50 ms, type the last name as text, pause 50 ms, and
/// release the modifiers in reverse order.
pub open spec fn combination_plan(names: Seq<Seq<char>>) -> Result<Seq<OpView>, Seq<char>> {
    if names.len() == 0 {
        Err("No keys provided for combination"@)
    } else {
        let mods = names.drop_last();
        let last = names.last();
        match first_unknown_modifier(mods) {
            Some(n) => Err("Unknown modifier key: "@ + n),
            None => if is_combination_letter(last) {
                Ok(
                    modifier_presses(mods) + seq![
                        OpView::Sleep(50),
                        OpView::Text(last),
                        OpView::Sleep(50),
                    ] + modifier_releases(mods),
                )
            } else {
                Err("Unknown key in combination: "@ + last)
            },
        }
    }
}

/// The mathematical form of a planned list of operations or of the reason
/// that none can be planned.
pub open spec fn plan_view(r: Result<Vec<InputOp>, String>) -> Result<Seq<OpView>, Seq<char>> {
    match r {
        Ok(ops) => Ok(ops_view(ops@)),
        Err(m) => Err(m@),
    }
}

proof fn lemma_ops_view_push(ops: Seq<InputOp>, op: InputOp)
    ensures
        ops_view(ops.push(op)) == ops_view(ops).push(op@),
{
    assert(ops_view(ops.push(op)) =~= ops_view(ops).push(op@));
}

/// The characters of each string of a list.
pub open spec fn strings_view(v: Seq<String>) -> Seq<Seq<char>> {
    v.map_values(|s: String| s@)
}

/// Plans a key combination whose names are already lower-cased.
pub fn combination_ops(names: &Vec<String>) -> (r: Result<Vec<InputOp>, String>)
    ensures
        plan_view(r) == combination_plan(strings_view(names@)),
{
    let ghost views = strings_view(names@);
    let n = names.len();
    if n == 0 {
        return Err(String::from_str("No keys provided for combination"));
    }
    let m = n - 1;
    let ghost mods = views.drop_last();
    let mut keys: Vec<Key> = Vec::new();
    let mut i: usize = 0;
    while i < m
        invariant
            n == names@.len(),
            m == n - 1,
            views == strings_view(names@),
            mods == views.drop_last(),
            i <= m,
            keys@.len() == i,
            forall|k: int| 0 <= k < i ==> modifier_key(#[trigger] mods[k]) == Some(keys@[k]),
        decreases m - i,
    {
        match modifier_for_name(names[i].as_str()) {
            Some(k) => {
                keys.push(k);
            },
            None => {
                proof {
                    assert(mods[i as int] == names@[i as int]@);
                    lemma_first_unknown_modifier(mods, i as int);
                }
                return Err(String::from_str("Unknown modifier key: ").concat(names[i].as_str()));
            },
        }
        i = i + 1;
    }
    proof {
        lemma_first_unknown_modifier(mods, m as int);
    }
    let last = names[m].as_str();
    assert(views.last() == last@);
    if !combination_letter(last) {
        return Err(String::from_str("Unknown key in combination: ").concat(last));
    }
    let mut ops: Vec<InputOp> = Vec::new();
    let mut j: usize = 0;
    while j < m
        invariant
            m == keys@.len(),
            mods.len() == m,
            forall|k: int| 0 <= k < m ==> modifier_key(#[trigger] mods[k]) == Some(keys@[k]),
            j <= m,
            ops_view(ops@) =~= modifier_presses(mods).subrange(0, j as int),
        decreases m - j,
    {
        let ghost before = ops@;
        let k = keys[j];
        ops.push(InputOp::Key(k, Direction::Press));
        proof {
            lemma_ops_view_push(before, InputOp::Key(k, Direction::Press));
            assert(modifier_key(mods[j as int]) == Some(k));
            assert(modifier_presses(mods)[j as int] == OpView::Key(k, Direction::Press));
            assert(modifier_presses(mods).subrange(0, j + 1) =~= modifier_presses(mods).subrange(
                0,
                j as int,
            ).push(OpView::Key(k, Direction::Press)));
        }
        j = j + 1;
    }
    assert(modifier_presses(mods).subrange(0, m as int) =~= modifier_presses(mods));
    let ghost o0 = ops@;
    ops.push(InputOp::Sleep(50));
    let ghost o1 = ops@;
    let text = names[m].clone();
    assert(text@ == last@);
    ops.push(InputOp::Text(text));
    let ghost o2 = ops@;
    ops.push(InputOp::Sleep(50));
    proof {
        lemma_ops_view_push(o0, InputOp::Sleep(50));
        lemma_ops_view_push(o1, InputOp::Text(names@[m as int]));
        lemma_ops_view_push(o2, InputOp::Sleep(50));
    }
    let ghost middle = ops_view(ops@);
    assert(middle =~= modifier_presses(mods) + seq![
        OpView::Sleep(50),
        OpView::Text(last@),
        OpView::Sleep(50),
    ]);
    let mut j: usize = 0;
    while j < m
        invariant
            m == keys@.len(),
            mods.len() == m,
            forall|k: int| 0 <= k < m ==> modifier_key(#[trigger] mods[k]) == Some(keys@[k]),
            j <= m,
            ops_view(ops@) =~= middle + modifier_releases(mods).subrange(0, j as int),
        decreases m - j,
    {
        let ghost before = ops@;
        let k = keys[m - 1 - j];
        ops.push(InputOp::Key(k, Direction::Release));
        proof {
            lemma_ops_view_push(before, InputOp::Key(k, Direction::Release));
            assert(modifier_key(mods[m - 1 - j]) == Some(k));
            assert(modifier_releases(mods)[j as int] == OpView::Key(k, Direction::Release));
            assert(modifier_releases(mods).subrange(0, j + 1) =~= modifier_releases(
                mods,
            ).subrange(0, j as int).push(OpView::Key(k, Direction::Release)));
        }
        j = j + 1;
    }
    assert(modifier_releases(mods).subrange(0, m as int) =~= modifier_releases(mods));
    Ok(ops)
}

/// The chord that switches windows with the given modifier, holding each
/// step for 100 ms, followed by a 500 ms settle.
pub open spec fn switch_chord(modifier: Key) -> Seq<OpView> {
    seq![
        OpView::Key(modifier, Direction::Press),
        OpView::Sleep(100),
        OpView::Key(Key::Tab, Direction::Click),
        OpView::Sleep(100),
        OpView::Key(modifier, Direction::Release),
        OpView::Sleep(500),
    ]
}

/// What a window-focus method does: `alt_tab` and `super_tab` switch
/// windows; any other method only waits for the settle time.
pub open spec fn focus_plan(method: Seq<char>) -> Seq<OpView> {
    if method == "alt_tab"@ {
        switch_chord(Key::Alt)
    } else if method == "super_tab"@ {
        switch_chord(Key::Meta)
    } else {
        seq![OpView::Sleep(500)]
    }
}

/// Plans the chord that switches windows with the given modifier.
pub fn window_switch_ops(modifier: Key) -> (r: Vec<InputOp>)
    ensures
        ops_view(r@) == switch_chord(modifier),
{
    let mut ops: Vec<InputOp> = Vec::new();
    ops.push(InputOp::Key(modifier, Direction::Press));
    ops.push(InputOp::Sleep(100));
    ops.push(InputOp::Key(Key::Tab, Direction::Click));
    ops.push(InputOp::Sleep(100));
    ops.push(InputOp::Key(modifier, Direction::Release));
    ops.push(InputOp::Sleep(500));
    assert(ops_view(ops@) =~= switch_chord(modifier));
    ops
}

/// Plans the switch to another window by the named method.
pub fn focus_ops(method: &str) -> (r: Vec<InputOp>)
    ensures
        ops_view(r@) == focus_plan(method@),
{
    if str_eq(method, "alt_tab") {
        window_switch_ops(Key::Alt)
    } else if str_eq(method, "super_tab") {
        window_switch_ops(Key::Meta)
    } else {
        let mut ops: Vec<InputOp> = Vec::new();
        ops.push(InputOp::Sleep(500));
        assert(ops_view(ops@) =~= seq![OpView::Sleep(500)]);
        ops
    }
}

} // verus!
