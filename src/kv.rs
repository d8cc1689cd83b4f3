use vstd::prelude::*;
use crate::entry::{Entry, EntryModel, LogValue, ValueModel, entries_view, push_entry};

verus! {

/// Auxiliary key/value pairs supplied with a logging call, in order.
/// Values are held as their display text.
#[derive(Clone, Debug)]
pub struct KV {
    kv: Vec<(String, String)>,
}

impl View for KV {
    type V = Seq<(Seq<char>, Seq<char>)>;

    closed spec fn view(&self) -> Seq<(Seq<char>, Seq<char>)> {
        self.kv@.map_values(|p: (String, String)| (p.0@, p.1@))
    }
}

/// The entries that the pairs of a [`KV`] become: each key with its text.
pub open spec fn kv_entries(m: Seq<(Seq<char>, Seq<char>)>) -> Seq<EntryModel> {
    m.map_values(|p: (Seq<char>, Seq<char>)| (p.0, ValueModel::Str(p.1)))
}

impl KV {
    /// An empty record.
    pub fn new() -> (r: KV)
        ensures
            r@ == Seq::<(Seq<char>, Seq<char>)>::empty(),
    {
        let r = KV { kv: Vec::new() };
        assert(r@ =~= Seq::<(Seq<char>, Seq<char>)>::empty());
        r
    }

    /// Adds the pair `key`, `value` at the end.
    pub fn push(self, key: &str, value: String) -> (r: KV)
        ensures
            r@ == self@.push((key@, value@)),
    {
        let mut kv = self.kv;
        kv.push((String::from_str(key), value));
        let r = KV { kv };
        assert(r@ =~= self@.push((key@, value@)));
        r
    }

    /// The number of pairs.
    pub fn len(&self) -> (r: usize)
        ensures
            r == self@.len(),
    {
        self.kv.len()
    }

    /// The pairs as entries with text values, in order.
    pub fn entries(&self) -> (r: Vec<Entry>)
        ensures
            entries_view(r@) == kv_entries(self@),
    {
        let mut out: Vec<Entry> = Vec::new();
        let mut i: usize = 0;
        while i < self.kv.len()
            invariant
                i <= self.kv@.len(),
                entries_view(out@) == kv_entries(self@.subrange(0, i as int)),
            decreases self.kv@.len() - i,
        {
            let key = self.kv[i].0.clone();
            let value = self.kv[i].1.clone();
            push_entry(&mut out, Entry { key, value: LogValue::Str(value) });
            assert(kv_entries(self@.subrange(0, i + 1)) =~= kv_entries(self@.subrange(0, i as int)).push(
                (self@[i as int].0, ValueModel::Str(self@[i as int].1)),
            ));
            i += 1;
        }
        assert(self@.subrange(0, self@.len() as int) =~= self@);
        out
    }
}

} // verus!
