//! The table function: bound to one text argument, it produces a single row
//! holding a greeting for that name, then reports that it is exhausted.
use std::sync::atomic::{AtomicBool, Ordering};
use vstd::prelude::*;
use vstd::string::*;

verus! {

/// The name of the one output column.
pub fn result_column() -> (r: String)
    ensures
        r@ == seq!['c', 'o', 'l', 'u', 'm', 'n', '0'],
{
    proof {
        reveal_strlit("column0");
    }
    String::from_str("column0")
}

/// A literal argument at the call site, as seen when the call is bound.
pub enum ParamValue {
    Text(String),
    NonText,
}

/// Why binding a call failed.
#[derive(PartialEq, Eq, Structural, Debug, Clone, Copy)]
pub enum BindError {
    /// The call did not pass exactly one argument.
    ArgumentCount,
    /// The argument is not text.
    NotText,
}

/// Per-plan data captured when a call is bound.
pub struct HelloBindData {
    pub name: String,
}

/// Per-execution data: whether the row has been handed out yet.
pub struct HelloInitData {
    pub done: AtomicBool,
}

/// The text of the row produced for `name`.
pub open spec fn greeting(name: Seq<char>) -> Seq<char> {
    seq!['R', 'u', 's', 't', 'y', ' ', 'Q', 'u', 'a', 'c', 'k', ' '] + name + seq![' ', '🐥']
}

/// The rows of one produce call, given whether the row had been handed out
/// before the call.
pub open spec fn rows_for(was_done: bool, name: Seq<char>) -> Seq<Seq<char>> {
    if was_done {
        Seq::empty()
    } else {
        seq![greeting(name)]
    }
}

/// The views of a batch of texts.
pub open spec fn texts(v: Seq<String>) -> Seq<Seq<char>> {
    v.map_values(|s: String| s@)
}

/// Binds a call: captures its only argument, which must be text.
pub fn bind(params: &Vec<ParamValue>) -> (r: Result<HelloBindData, BindError>)
    ensures
        params.len() != 1 <==> r == Err::<HelloBindData, BindError>(BindError::ArgumentCount),
        params.len() == 1 && params[0] is NonText <==> r == Err::<HelloBindData, BindError>(
            BindError::NotText,
        ),
        match r {
            Ok(d) => params.len() == 1 && (params[0] matches ParamValue::Text(s) && d.name@ == s@),
            Err(_) => true,
        },
{
    if params.len() != 1 {
        return Err(BindError::ArgumentCount);
    }
    match &params[0] {
        ParamValue::Text(s) => Ok(HelloBindData { name: s.clone() }),
        ParamValue::NonText => Err(BindError::NotText),
    }
}

/// The greeting text for `name`.
pub fn greeting_for(name: &str) -> (r: String)
    ensures
        r@ == greeting(name@),
{
    proof {
        reveal_strlit("Rusty Quack ");
        reveal_strlit(" 🐥");
    }
    let mut r = String::from_str("Rusty Quack ");
    r.append(name);
    r.append(" 🐥");
    r
}

/// The rows of one produce call, given whether the row had been handed out
/// before it: the greeting the first time, nothing after.
pub fn rows_after_swap(was_done: bool, bind: &HelloBindData) -> (r: Vec<String>)
    ensures
        texts(r@) == rows_for(was_done, bind.name@),
{
    let mut r: Vec<String> = Vec::new();
    if !was_done {
        r.push(greeting_for(bind.name.as_str()));
    }
    assert(texts(r@) =~= rows_for(was_done, bind.name@));
    r
}

/// The rows that `calls` successive produce calls on one execution receive,
/// the flag standing at `was_done` before the first: each call swaps the
/// flag to set and sees what it held before.
pub open spec fn call_rows(was_done: bool, calls: nat, name: Seq<char>) -> Seq<Seq<Seq<char>>>
    decreases calls,
{
    if calls == 0 {
        Seq::empty()
    } else {
        seq![rows_for(was_done, name)] + call_rows(true, (calls - 1) as nat, name)
    }
}

proof fn lemma_call_rows_shape(was_done: bool, calls: nat, name: Seq<char>)
    ensures
        call_rows(was_done, calls, name).len() == calls,
        calls > 0 ==> call_rows(was_done, calls, name)[0] == rows_for(was_done, name),
        forall|k: int|
            1 <= k < calls ==> #[trigger] call_rows(was_done, calls, name)[k] == Seq::<
                Seq<char>,
            >::empty(),
    decreases calls,
{
    if calls > 0 {
        let rest = call_rows(true, (calls - 1) as nat, name);
        lemma_call_rows_shape(true, (calls - 1) as nat, name);
        assert forall|k: int| 1 <= k < calls implies #[trigger] call_rows(
            was_done,
            calls,
            name,
        )[k] == Seq::<Seq<char>>::empty() by {
            assert(call_rows(was_done, calls, name)[k] == rest[k - 1]);
        }
    }
}

/// On a fresh execution the first produce call receives exactly one row, the
/// greeting for the bound name.
pub proof fn lemma_first_call_greets(name: Seq<char>, calls: nat)
    requires
        calls >= 1,
    ensures
        call_rows(false, calls, name)[0] == seq![greeting(name)],
{
    lemma_call_rows_shape(false, calls, name);
}

/// Every produce call after the first, the third and later ones included,
/// receives no row.
pub proof fn lemma_exhausted_stays_empty(name: Seq<char>, calls: nat, k: int)
    requires
        1 <= k < calls,
    ensures
        call_rows(false, calls, name)[k].len() == 0,
{
    lemma_call_rows_shape(false, calls, name);
}

/// Whatever the flag held at the start and however many calls race on one
/// execution (the atomic swap puts them in some order), no two calls both
/// receive a row.
pub proof fn lemma_row_emitted_at_most_once(was_done: bool, calls: nat, name: Seq<char>, i: int, j: int)
    requires
        0 <= i < calls,
        0 <= j < calls,
        call_rows(was_done, calls, name)[i].len() > 0,
        call_rows(was_done, calls, name)[j].len() > 0,
    ensures
        i == j,
        i == 0,
{
    lemma_call_rows_shape(was_done, calls, name);
}

impl HelloInitData {
    /// Fresh per-execution data: the row is still to be produced.
    pub fn new() -> (r: Self) {
        HelloInitData { done: AtomicBool::new(false) }
    }

    /// One produce call: marks the row as handed out, in one atomic step, and
    /// returns it if no earlier call had.
    pub fn produce(&self, bind: &HelloBindData) -> (r: Vec<String>)
        ensures
            exists|was_done: bool| texts(r@) == rows_for(was_done, bind.name@),
    {
        let was_done = self.done.swap(true, Ordering::Relaxed);
        rows_after_swap(was_done, bind)
    }
}

} // verus!
