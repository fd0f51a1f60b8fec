//! The values handed back to the presentation layer.
use vstd::prelude::*;

verus! {

/// One column of a tabular shape: its name and its declared type text.
#[derive(Clone, Debug)]
pub struct ColumnInfo {
    pub name: String,
    pub type_: String,
}

/// A file's row count and column list.
pub struct FileMetadata {
    pub file_path: String,
    pub total_rows: i64,
    pub schema: Vec<ColumnInfo>,
}

/// One page of an ad-hoc query, with the size of its whole result set.
pub struct QueryResult {
    pub schema: Vec<ColumnInfo>,
    pub rows: Vec<Row>,
    pub execution_time_ms: u128,
    pub total_rows: i64,
}

/// The mapping that a sequence of (key, value) insertions leaves behind: a
/// later insertion under an equal key replaces the earlier value.
pub open spec fn inserted(entries: Seq<(Seq<char>, Seq<char>)>) -> Map<Seq<char>, Seq<char>>
    decreases entries.len(),
{
    if entries.len() == 0 {
        Map::empty()
    } else {
        inserted(entries.drop_last()).insert(entries.last().0, entries.last().1)
    }
}

/// No key occurs twice.
pub open spec fn keys_distinct(entries: Seq<(Seq<char>, Seq<char>)>) -> bool {
    forall|i: int, j: int|
        0 <= i < j < entries.len() ==> #[trigger] entries[i].0 != #[trigger] entries[j].0
}

/// A record: a mapping from column name to display text.
#[derive(Clone, Debug)]
pub struct Row {
    cells: Vec<(String, String)>,
}

impl Row {
    /// The stored cells as (column, text) pairs of character sequences.
    pub closed spec fn entries(&self) -> Seq<(Seq<char>, Seq<char>)> {
        self.cells@.map_values(|c: (String, String)| (c.0@, c.1@))
    }

    /// Each column is stored once.
    pub closed spec fn wf(&self) -> bool {
        keys_distinct(self.entries())
    }

    /// The row as a mapping from column name to text.
    pub closed spec fn view(&self) -> Map<Seq<char>, Seq<char>> {
        inserted(self.entries())
    }

    /// An empty row.
    pub fn new() -> (r: Row)
        ensures
            r.wf(),
            r.view() == Map::<Seq<char>, Seq<char>>::empty(),
    {
        let r = Row { cells: Vec::new() };
        assert(r.entries() =~= Seq::<(Seq<char>, Seq<char>)>::empty());
        r
    }

    /// Sets the text of `column`, replacing any earlier text for it.
    pub fn insert(&mut self, column: String, text: String)
        requires
            old(self).wf(),
        ensures
            final(self).wf(),
            final(self).view() == old(self).view().insert(column@, text@),
    {
        let n = self.cells.len();
        let mut i: usize = 0;
        while i < n
            invariant
                n == self.cells@.len(),
                i <= n,
                self == old(self),
                self.wf(),
                forall|j: int| 0 <= j < i ==> self.cells@[j].0@ != column@,
            decreases n - i,
        {
            if self.cells[i].0 == column {
                let ghost before = self.entries();
                proof {
                    lemma_update_value(before, i as int, text@);
                }
                self.cells.set(i, (column, text));
                assert(self.entries() =~= before.update(i as int, (before[i as int].0, text@)));
                return;
            }
            i = i + 1;
        }
        let ghost before = self.entries();
        self.cells.push((column, text));
        assert(self.entries() =~= before.push((column@, text@)));
        assert(self.entries().drop_last() =~= before);
    }

    /// The text stored for `column`, if any.
    pub fn get(&self, column: &String) -> (r: Option<&String>)
        requires
            self.wf(),
        ensures
            r.is_some() == self.view().contains_key(column@),
            r.is_some() ==> r.unwrap()@ == self.view()[column@],
    {
        let n = self.cells.len();
        let mut i: usize = 0;
        while i < n
            invariant
                n == self.cells@.len(),
                i <= n,
                self.wf(),
                forall|j: int| 0 <= j < i ==> self.cells@[j].0@ != column@,
            decreases n - i,
        {
            if self.cells[i].0 == *column {
                proof {
                    lemma_lookup(self.entries(), i as int);
                }
                return Some(&self.cells[i].1);
            }
            i = i + 1;
        }
        proof {
            lemma_absent(self.entries(), column@);
        }
        None
    }

    /// The stored (column, text) pairs, in the order the columns were first set.
    pub fn pairs(&self) -> (r: &[(String, String)])
        ensures
            r@.map_values(|c: (String, String)| (c.0@, c.1@)) == self.entries(),
    {
        self.cells.as_slice()
    }

    /// The number of columns stored.
    pub fn len(&self) -> (r: usize)
        requires
            self.wf(),
        ensures
            r == self.view().len(),
    {
        proof {
            lemma_size(self.entries());
        }
        self.cells.len()
    }
}

proof fn lemma_lookup(s: Seq<(Seq<char>, Seq<char>)>, i: int)
    requires
        keys_distinct(s),
        0 <= i < s.len(),
    ensures
        inserted(s).contains_key(s[i].0),
        inserted(s)[s[i].0] == s[i].1,
    decreases s.len(),
{
    if i < s.len() - 1 {
        let t = s.drop_last();
        assert(t[i] == s[i]);
        assert(s[i].0 != s[s.len() - 1].0);
        lemma_lookup(t, i);
    }
}

proof fn lemma_absent(s: Seq<(Seq<char>, Seq<char>)>, k: Seq<char>)
    requires
        forall|j: int| 0 <= j < s.len() ==> s[j].0 != k,
    ensures
        !inserted(s).contains_key(k),
    decreases s.len(),
{
    if s.len() > 0 {
        let t = s.drop_last();
        assert forall|j: int| 0 <= j < t.len() implies t[j].0 != k by {
            assert(t[j] == s[j]);
        }
        lemma_absent(t, k);
    }
}

proof fn lemma_size(s: Seq<(Seq<char>, Seq<char>)>)
    requires
        keys_distinct(s),
    ensures
        inserted(s).dom().finite(),
        inserted(s).len() == s.len(),
    decreases s.len(),
{
    if s.len() > 0 {
        let t = s.drop_last();
        assert(keys_distinct(t)) by {
            assert forall|i: int, j: int| 0 <= i < j < t.len() implies t[i].0 != t[j].0 by {
                assert(t[i] == s[i] && t[j] == s[j]);
            }
        }
        lemma_size(t);
        assert forall|j: int| 0 <= j < t.len() implies t[j].0 != s.last().0 by {
            assert(t[j] == s[j]);
        }
        lemma_absent(t, s.last().0);
    }
}

proof fn lemma_update_value(s: Seq<(Seq<char>, Seq<char>)>, i: int, v: Seq<char>)
    requires
        keys_distinct(s),
        0 <= i < s.len(),
    ensures
        keys_distinct(s.update(i, (s[i].0, v))),
        inserted(s.update(i, (s[i].0, v))) == inserted(s).insert(s[i].0, v),
    decreases s.len(),
{
    let u = s.update(i, (s[i].0, v));
    assert forall|a: int, b: int| 0 <= a < b < u.len() implies u[a].0 != u[b].0 by {
        assert(u[a].0 == s[a].0 && u[b].0 == s[b].0);
    }
    let t = s.drop_last();
    if i == s.len() - 1 {
        assert(u.drop_last() =~= t);
        assert(inserted(u) =~= inserted(s).insert(s[i].0, v));
    } else {
        assert(keys_distinct(t)) by {
            assert forall|a: int, b: int| 0 <= a < b < t.len() implies t[a].0 != t[b].0 by {
                assert(t[a] == s[a] && t[b] == s[b]);
            }
        }
        lemma_update_value(t, i, v);
        assert(u.drop_last() =~= t.update(i, (t[i].0, v)));
        assert(s[i].0 != s.last().0);
        assert(inserted(u) =~= inserted(s).insert(s[i].0, v));
    }
}

} // verus!
