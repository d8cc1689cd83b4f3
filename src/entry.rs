use vstd::prelude::*;

verus! {

/// The value of one emitted entry.
#[derive(Clone, Debug, PartialEq, Eq)]
pub enum LogValue {
    Str(String),
    U64(u64),
    Bool(bool),
}

/// The mathematical value of a [`LogValue`].
pub enum ValueModel {
    Str(Seq<char>),
    U64(u64),
    Bool(bool),
}

impl View for LogValue {
    type V = ValueModel;

    open spec fn view(&self) -> ValueModel {
        match self {
            LogValue::Str(s) => ValueModel::Str(s@),
            LogValue::U64(n) => ValueModel::U64(*n),
            LogValue::Bool(b) => ValueModel::Bool(*b),
        }
    }
}

/// One key/value entry of a record.
#[derive(Clone, Debug, PartialEq, Eq)]
pub struct Entry {
    pub key: String,
    pub value: LogValue,
}

/// An entry as a key and a value.
pub type EntryModel = (Seq<char>, ValueModel);

impl View for Entry {
    type V = EntryModel;

    open spec fn view(&self) -> EntryModel {
        (self.key@, self.value@)
    }
}

/// The entries of a sequence, in order.
pub open spec fn entries_view(v: Seq<Entry>) -> Seq<EntryModel> {
    v.map_values(|e: Entry| e@)
}

/// Appending an entry appends its view.
pub proof fn lemma_entries_view_push(v: Seq<Entry>, e: Entry)
    ensures
        entries_view(v.push(e)) == entries_view(v).push(e@),
{
    assert(entries_view(v.push(e)) =~= entries_view(v).push(e@));
}

/// Pushes `e` onto `out`.
pub fn push_entry(out: &mut Vec<Entry>, e: Entry)
    ensures
        entries_view(final(out)@) == entries_view(old(out)@).push(e@),
{
    proof {
        lemma_entries_view_push(out@, e);
    }
    out.push(e);
}

/// Concatenation commutes with taking views.
pub proof fn lemma_entries_view_concat(a: Seq<Entry>, b: Seq<Entry>)
    ensures
        entries_view(a + b) == entries_view(a) + entries_view(b),
{
    assert(entries_view(a + b) =~= entries_view(a) + entries_view(b));
}

/// Moves the entries of `more` to the end of `out`, in order.
pub fn append_entries(out: &mut Vec<Entry>, more: Vec<Entry>)
    ensures
        entries_view(final(out)@) == entries_view(old(out)@) + entries_view(more@),
{
    let mut more = more;
    proof {
        lemma_entries_view_concat(out@, more@);
    }
    out.append(&mut more);
}

} // verus!
