use vstd::prelude::*;
use crate::entry::ValueModel;
use crate::snapshot::{StateSnapshot, count_entries, data_entries, state_entries};
use crate::state_data::{StateData, data_name};

verus! {

/// The entries of a concatenated selection are the entries of its parts,
/// concatenated: tags are never reordered or merged across the parts.
pub proof fn lemma_selection_concat(a: Seq<StateData>, b: Seq<StateData>, s: StateSnapshot)
    ensures
        state_entries(a + b, s) == state_entries(a, s) + state_entries(b, s),
    decreases b.len(),
{
    if b.len() == 0 {
        assert(a + b =~= a);
        assert(state_entries(b, s) =~= Seq::empty());
        assert(state_entries(a, s) + state_entries(b, s) =~= state_entries(a, s));
    } else {
        assert((a + b).drop_last() =~= a + b.drop_last());
        assert((a + b).last() == b.last());
        lemma_selection_concat(a, b.drop_last(), s);
        assert(state_entries(a + b, s) =~= state_entries(a, s) + state_entries(b, s));
    }
}

/// A selection of one tag gives exactly that tag's entries.
pub proof fn lemma_single_tag(d: StateData, s: StateSnapshot)
    ensures
        state_entries(seq![d], s) == data_entries(d, s),
{
    assert(seq![d].drop_last() =~= Seq::<StateData>::empty());
    assert(state_entries(Seq::<StateData>::empty(), s) + data_entries(d, s) =~= data_entries(
        d,
        s,
    ));
}

/// A tag selected twice gives its entries twice: no de-duplication.
pub proof fn lemma_duplicate_tag(d: StateData, s: StateSnapshot)
    ensures
        state_entries(seq![d, d], s) == data_entries(d, s) + data_entries(d, s),
{
    assert(seq![d, d] =~= seq![d] + seq![d]);
    lemma_selection_concat(seq![d], seq![d], s);
    lemma_single_tag(d, s);
}

/// Selecting the iteration number and then the cost gives exactly the two
/// entries `Iter` and `Cost`, in that order.
pub proof fn lemma_iter_then_cost(s: StateSnapshot)
    ensures
        state_entries(seq![StateData::Iter, StateData::Cost], s) == seq![
            ("Iter"@, ValueModel::U64(s.iter)),
            ("Cost"@, ValueModel::Str(s.cost@)),
        ],
{
    assert(seq![StateData::Iter, StateData::Cost] =~= seq![StateData::Iter] + seq![
        StateData::Cost,
    ]);
    lemma_selection_concat(seq![StateData::Iter], seq![StateData::Cost], s);
    lemma_single_tag(StateData::Iter, s);
    lemma_single_tag(StateData::Cost, s);
    assert(state_entries(seq![StateData::Iter, StateData::Cost], s) =~= seq![
        ("Iter"@, ValueModel::U64(s.iter)),
        ("Cost"@, ValueModel::Str(s.cost@)),
    ]);
}

/// The function counts expand to one entry per counted function, keyed by
/// the function's name and holding its count; unless a function is itself
/// named so, no entry is keyed `FunctionCounts`.
pub proof fn lemma_function_counts_expand(s: StateSnapshot)
    ensures
        state_entries(seq![StateData::FunctionCounts], s).len() == s.func_counts@.len(),
        forall|i: int|
            0 <= i < s.func_counts@.len() ==> #[trigger] state_entries(
                seq![StateData::FunctionCounts],
                s,
            )[i] == (s.func_counts@[i].0@, ValueModel::U64(s.func_counts@[i].1)),
        (forall|i: int|
            0 <= i < s.func_counts@.len() ==> #[trigger] s.func_counts@[i].0@
                != "FunctionCounts"@) ==> forall|i: int|
            0 <= i < s.func_counts@.len() ==> #[trigger] state_entries(
                seq![StateData::FunctionCounts],
                s,
            )[i].0 != "FunctionCounts"@,
{
    lemma_single_tag(StateData::FunctionCounts, s);
    assert(state_entries(seq![StateData::FunctionCounts], s) == count_entries(s.func_counts@));
}

/// An absent parameter, best parameter, elapsed time or termination reason
/// is rendered as the text `None`; a present one as its own text.
pub proof fn lemma_optional_fields(s: StateSnapshot)
    ensures
        data_entries(StateData::BestParam, s) == seq![
            (
                data_name(StateData::BestParam),
                ValueModel::Str(
                    match s.best_param {
                        Some(t) => t@,
                        None => "None"@,
                    },
                ),
            ),
        ],
        data_entries(StateData::Param, s) == seq![
            (
                data_name(StateData::Param),
                ValueModel::Str(
                    match s.param {
                        Some(t) => t@,
                        None => "None"@,
                    },
                ),
            ),
        ],
        data_entries(StateData::Time, s) == seq![
            (
                data_name(StateData::Time),
                ValueModel::Str(
                    match s.time {
                        Some(t) => t@,
                        None => "None"@,
                    },
                ),
            ),
        ],
        data_entries(StateData::TerminationReason, s) == seq![
            (
                data_name(StateData::TerminationReason),
                ValueModel::Str(
                    match s.termination_reason {
                        Some(t) => t@,
                        None => "None"@,
                    },
                ),
            ),
        ],
{
}

} // verus!
