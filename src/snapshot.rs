use vstd::prelude::*;
use crate::entry::{Entry, EntryModel, LogValue, ValueModel, entries_view, push_entry};
use crate::state_data::{StateData, data_name};

verus! {

/// What the logger reads of the optimizer's state at one moment, as plain
/// values. Numbers that are not integers, parameters and the elapsed time
/// arrive already rendered as text; absent optional values are `None`.
#[derive(Clone, Debug)]
pub struct StateSnapshot {
    pub best_cost: String,
    pub best_param: Option<String>,
    pub cost: String,
    /// The number of evaluations of each counted function, in the order in
    /// which the counts were read.
    pub func_counts: Vec<(String, u64)>,
    pub is_best: bool,
    pub iter: u64,
    pub last_best_iter: u64,
    pub max_iters: u64,
    pub param: Option<String>,
    pub target_cost: String,
    pub termination_reason: Option<String>,
    pub termination_status: String,
    pub time: Option<String>,
}

/// The text of an optional value: its own text, or `None` when absent.
pub open spec fn optional_text(o: Option<String>) -> Seq<char> {
    match o {
        Some(t) => t@,
        None => "None"@,
    }
}

/// The entries of the function counts: one per counted function, keyed by
/// its name.
pub open spec fn count_entries(c: Seq<(String, u64)>) -> Seq<EntryModel> {
    c.map_values(|p: (String, u64)| (p.0@, ValueModel::U64(p.1)))
}

/// The entries that one tag contributes to a record.
pub open spec fn data_entries(d: StateData, s: StateSnapshot) -> Seq<EntryModel> {
    let k = data_name(d);
    match d {
        StateData::BestCost => seq![(k, ValueModel::Str(s.best_cost@))],
        StateData::BestParam => seq![(k, ValueModel::Str(optional_text(s.best_param)))],
        StateData::Cost => seq![(k, ValueModel::Str(s.cost@))],
        StateData::FunctionCounts => count_entries(s.func_counts@),
        StateData::IsBest => seq![(k, ValueModel::Bool(s.is_best))],
        StateData::Iter => seq![(k, ValueModel::U64(s.iter))],
        StateData::LastBestIter => seq![(k, ValueModel::U64(s.last_best_iter))],
        StateData::MaxIters => seq![(k, ValueModel::U64(s.max_iters))],
        StateData::Param => seq![(k, ValueModel::Str(optional_text(s.param)))],
        StateData::TargetCost => seq![(k, ValueModel::Str(s.target_cost@))],
        StateData::TerminationReason => seq![
            (k, ValueModel::Str(optional_text(s.termination_reason))),
        ],
        StateData::TerminationStatus => seq![(k, ValueModel::Str(s.termination_status@))],
        StateData::Time => seq![(k, ValueModel::Str(optional_text(s.time)))],
    }
}

/// The entries of a selection: each tag's entries, in selection order.
pub open spec fn state_entries(sel: Seq<StateData>, s: StateSnapshot) -> Seq<EntryModel>
    decreases sel.len(),
{
    if sel.len() == 0 {
        Seq::empty()
    } else {
        state_entries(sel.drop_last(), s) + data_entries(sel.last(), s)
    }
}

fn text_of_optional(o: &Option<String>) -> (r: String)
    ensures
        r@ == optional_text(*o),
{
    match o {
        Some(t) => t.clone(),
        None => String::from_str("None"),
    }
}

fn push_text(out: &mut Vec<Entry>, d: StateData, text: String)
    ensures
        entries_view(final(out)@) == entries_view(old(out)@).push(
            (data_name(d), ValueModel::Str(text@)),
        ),
{
    push_entry(out, Entry { key: String::from_str(d.name()), value: LogValue::Str(text) });
}

fn push_u64(out: &mut Vec<Entry>, d: StateData, n: u64)
    ensures
        entries_view(final(out)@) == entries_view(old(out)@).push((data_name(d), ValueModel::U64(n))),
{
    push_entry(out, Entry { key: String::from_str(d.name()), value: LogValue::U64(n) });
}

fn push_counts(out: &mut Vec<Entry>, counts: &Vec<(String, u64)>)
    ensures
        entries_view(final(out)@) == entries_view(old(out)@) + count_entries(counts@),
{
    let mut i: usize = 0;
    while i < counts.len()
        invariant
            i <= counts@.len(),
            entries_view(out@) == entries_view(old(out)@) + count_entries(
                counts@.subrange(0, i as int),
            ),
        decreases counts@.len() - i,
    {
        let key = counts[i].0.clone();
        let n = counts[i].1;
        push_entry(out, Entry { key, value: LogValue::U64(n) });
        assert(count_entries(counts@.subrange(0, i + 1)) =~= count_entries(
            counts@.subrange(0, i as int),
        ).push((counts@[i as int].0@, ValueModel::U64(n))));
        i += 1;
    }
    assert(counts@.subrange(0, counts@.len() as int) =~= counts@);
}

/// Appends to `out` the entries that the tag `d` gives for `state`.
pub fn push_data_entries(out: &mut Vec<Entry>, d: StateData, state: &StateSnapshot)
    ensures
        entries_view(final(out)@) == entries_view(old(out)@) + data_entries(d, *state),
{
    let ghost before = entries_view(out@);
    match d {
        StateData::BestCost => push_text(out, d, state.best_cost.clone()),
        StateData::BestParam => push_text(out, d, text_of_optional(&state.best_param)),
        StateData::Cost => push_text(out, d, state.cost.clone()),
        StateData::FunctionCounts => push_counts(out, &state.func_counts),
        StateData::IsBest => push_entry(
            out,
            Entry { key: String::from_str(d.name()), value: LogValue::Bool(state.is_best) },
        ),
        StateData::Iter => push_u64(out, d, state.iter),
        StateData::LastBestIter => push_u64(out, d, state.last_best_iter),
        StateData::MaxIters => push_u64(out, d, state.max_iters),
        StateData::Param => push_text(out, d, text_of_optional(&state.param)),
        StateData::TargetCost => push_text(out, d, state.target_cost.clone()),
        StateData::TerminationReason => push_text(
            out,
            d,
            text_of_optional(&state.termination_reason),
        ),
        StateData::TerminationStatus => push_text(out, d, state.termination_status.clone()),
        StateData::Time => push_text(out, d, text_of_optional(&state.time)),
    }
    assert(entries_view(out@) =~= before + data_entries(d, *state));
}

/// The entries that the selection `sel` gives for `state`: for each tag in
/// order, its entries, with no tag merged or dropped.
pub fn serialize_state(sel: &Vec<StateData>, state: &StateSnapshot) -> (r: Vec<Entry>)
    ensures
        entries_view(r@) == state_entries(sel@, *state),
{
    let mut out: Vec<Entry> = Vec::new();
    let mut i: usize = 0;
    assert(entries_view(out@) =~= state_entries(sel@.subrange(0, 0), *state));
    while i < sel.len()
        invariant
            i <= sel@.len(),
            entries_view(out@) == state_entries(sel@.subrange(0, i as int), *state),
        decreases sel@.len() - i,
    {
        push_data_entries(&mut out, sel[i], state);
        assert(sel@.subrange(0, i + 1).drop_last() =~= sel@.subrange(0, i as int));
        i += 1;
    }
    assert(sel@.subrange(0, sel@.len() as int) =~= sel@);
    out
}

} // verus!
