use vstd::prelude::*;
use crate::movie::{Movie, MovieModel};

verus! {

/// The map that a sequence of records stands for: each record is filed
/// under its identifier, a later record replacing an earlier one.
pub open spec fn table_model(s: Seq<MovieModel>) -> Map<Seq<char>, MovieModel>
    decreases s.len(),
{
    if s.len() == 0 {
        Map::empty()
    } else {
        table_model(s.drop_last()).insert(s.last().id, s.last())
    }
}

/// No two records of the sequence share an identifier.
pub open spec fn ids_distinct(s: Seq<MovieModel>) -> bool {
    forall|i: int, j: int| 0 <= i < j < s.len() ==> s[i].id != s[j].id
}

/// With distinct identifiers, the model holds exactly the identifiers of
/// the sequence, each mapped to its own record.
pub proof fn lemma_table_model(s: Seq<MovieModel>)
    requires
        ids_distinct(s),
    ensures
        forall|k: Seq<char>| #[trigger]
            table_model(s).contains_key(k) <==> exists|i: int| 0 <= i < s.len() && s[i].id == k,
        forall|i: int| 0 <= i < s.len() ==> table_model(s)[#[trigger] s[i].id] == s[i],
        forall|k: Seq<char>| #[trigger] table_model(s).contains_key(k) ==> table_model(s)[k].id == k,
    decreases s.len(),
{
    if s.len() > 0 {
        let p = s.drop_last();
        assert forall|i: int, j: int| 0 <= i < j < p.len() implies p[i].id != p[j].id by {
            assert(p[i] == s[i] && p[j] == s[j]);
        }
        lemma_table_model(p);
        assert(table_model(s) == table_model(p).insert(s.last().id, s.last()));
        assert forall|k: Seq<char>| #[trigger]
            table_model(s).contains_key(k) <==> exists|i: int| 0 <= i < s.len() && s[i].id == k by {
            if table_model(s).contains_key(k) && k != s.last().id {
                assert(table_model(p).contains_key(k));
                let j = choose|j: int| 0 <= j < p.len() && p[j].id == k;
                assert(s[j] == p[j]);
            }
            if k == s.last().id {
                assert(s[s.len() - 1].id == k);
            }
            if exists|i: int| 0 <= i < s.len() && s[i].id == k {
                let i = choose|i: int| 0 <= i < s.len() && s[i].id == k;
                if i < s.len() - 1 {
                    assert(p[i] == s[i]);
                }
            }
        }
        assert forall|i: int| 0 <= i < s.len() implies table_model(s)[#[trigger] s[i].id] == s[i] by {
            if i < s.len() - 1 {
                assert(p[i] == s[i]);
                assert(s[i].id != s.last().id);
            }
        }
    }
}

/// Replacing a record by one with the same identifier replaces the value
/// filed under that identifier.
pub proof fn lemma_table_update(s: Seq<MovieModel>, i: int, x: MovieModel)
    requires
        ids_distinct(s),
        0 <= i < s.len(),
        x.id == s[i].id,
    ensures
        ids_distinct(s.update(i, x)),
        table_model(s.update(i, x)) == table_model(s).insert(x.id, x),
{
    let t = s.update(i, x);
    assert forall|a: int, b: int| 0 <= a < b < t.len() implies t[a].id != t[b].id by {
        assert(t[a].id == s[a].id && t[b].id == s[b].id);
    }
    lemma_table_model(s);
    lemma_table_model(t);
    let m = table_model(s).insert(x.id, x);
    assert forall|k: Seq<char>| #[trigger] table_model(t).contains_key(k) <==> m.contains_key(k) by {
        if table_model(t).contains_key(k) {
            let j = choose|j: int| 0 <= j < t.len() && t[j].id == k;
            assert(s[j].id == k);
        }
        if table_model(s).contains_key(k) {
            let j = choose|j: int| 0 <= j < s.len() && s[j].id == k;
            assert(t[j].id == k);
        }
        if k == x.id {
            assert(t[i].id == k);
        }
    }
    assert forall|k: Seq<char>| #[trigger] table_model(t).contains_key(k) implies table_model(t)[k]
        == m[k] by {
        let j = choose|j: int| 0 <= j < t.len() && t[j].id == k;
        if j != i {
            assert(t[j] == s[j]);
        }
    }
    assert(table_model(t) =~= m);
}

/// Removing the record at a position removes its identifier from the map.
pub proof fn lemma_table_remove(s: Seq<MovieModel>, i: int)
    requires
        ids_distinct(s),
        0 <= i < s.len(),
    ensures
        ids_distinct(s.remove(i)),
        table_model(s.remove(i)) == table_model(s).remove(s[i].id),
{
    let t = s.remove(i);
    assert forall|a: int, b: int| 0 <= a < b < t.len() implies t[a].id != t[b].id by {
        let a2 = if a < i { a } else { a + 1 };
        let b2 = if b < i { b } else { b + 1 };
        assert(t[a] == s[a2] && t[b] == s[b2]);
    }
    lemma_table_model(s);
    lemma_table_model(t);
    let m = table_model(s).remove(s[i].id);
    assert forall|k: Seq<char>| #[trigger] table_model(t).contains_key(k) <==> m.contains_key(k) by {
        if table_model(t).contains_key(k) {
            let j = choose|j: int| 0 <= j < t.len() && t[j].id == k;
            let j2 = if j < i { j } else { j + 1 };
            assert(t[j] == s[j2]);
        }
        if m.contains_key(k) {
            let j = choose|j: int| 0 <= j < s.len() && s[j].id == k;
            let j2 = if j < i { j } else { j - 1 };
            assert(t[j2] == s[j]);
        }
    }
    assert forall|k: Seq<char>| #[trigger] table_model(t).contains_key(k) implies table_model(t)[k]
        == m[k] by {
        let j = choose|j: int| 0 <= j < t.len() && t[j].id == k;
        let j2 = if j < i { j } else { j + 1 };
        assert(t[j] == s[j2]);
    }
    assert(table_model(t) =~= m);
}

/// Appending a record with a new identifier adds it to the map.
pub proof fn lemma_table_push(s: Seq<MovieModel>, x: MovieModel)
    requires
        ids_distinct(s),
        !table_model(s).contains_key(x.id),
    ensures
        ids_distinct(s.push(x)),
        table_model(s.push(x)) == table_model(s).insert(x.id, x),
{
    lemma_table_model(s);
    let t = s.push(x);
    assert forall|a: int, b: int| 0 <= a < b < t.len() implies t[a].id != t[b].id by {
        assert(t[a] == s[a]);
        if b < s.len() {
            assert(t[b] == s[b]);
        }
    }
    assert(t.drop_last() =~= s);
}

/// A finite map from identifier to record, kept as a vector of records with
/// distinct identifiers.
pub struct MovieTable {
    entries: Vec<Movie>,
}

impl View for MovieTable {
    type V = Map<Seq<char>, MovieModel>;

    closed spec fn view(&self) -> Map<Seq<char>, MovieModel> {
        table_model(self.models())
    }
}

impl MovieTable {
    closed spec fn models(self) -> Seq<MovieModel> {
        self.entries@.map_values(|m: Movie| m@)
    }

    #[verifier::type_invariant]
    closed spec fn wf(self) -> bool {
        ids_distinct(self.models())
    }

    pub fn new() -> (r: MovieTable)
        ensures
            r@ == Map::<Seq<char>, MovieModel>::empty(),
    {
        let r = MovieTable { entries: Vec::new() };
        assert(r.models() =~= Seq::<MovieModel>::empty());
        r
    }

    /// The position of the record filed under `id`, if any.
    fn position(&self, id: &String) -> (r: Option<usize>)
        ensures
            match r {
                Some(i) => i < self.entries.len() && self.entries@[i as int]@.id == id@,
                None => forall|j: int|
                    0 <= j < self.entries.len() ==> #[trigger] self.entries@[j]@.id != id@,
            },
    {
        let mut i: usize = 0;
        while i < self.entries.len()
            invariant
                i <= self.entries.len(),
                forall|j: int| 0 <= j < i ==> #[trigger] self.entries@[j]@.id != id@,
            decreases self.entries.len() - i,
        {
            if self.entries[i].id == *id {
                return Some(i);
            }
            i = i + 1;
        }
        None
    }

    /// A copy of the record filed under `id`, if there is one.
    pub fn get(&self, id: &String) -> (r: Option<Movie>)
        ensures
            r is Some <==> self@.contains_key(id@),
            r is Some ==> r->0@ == self@[id@] && r->0@.id == id@,
    {
        proof {
            use_type_invariant(self);
            lemma_table_model(self.models());
        }
        match self.position(id) {
            Some(i) => {
                assert(self.models()[i as int].id == id@);
                Some(self.entries[i].duplicate())
            },
            None => {
                assert forall|j: int| 0 <= j < self.models().len() implies
                    #[trigger] self.models()[j].id != id@ by {
                    assert(self.models()[j] == self.entries@[j]@);
                }
                None
            },
        }
    }
    /// Files `m` under its identifier, replacing any record there.
    pub fn put(&mut self, m: Movie)
        ensures
            final(self)@ == old(self)@.insert(m@.id, m@),
    {
        proof {
            use_type_invariant(&*self);
            lemma_table_model(self.models());
        }
        let pos = self.position(&m.id);
        let ghost s = self.models();
        let ghost x = m@;
        let mut v: Vec<Movie> = Vec::new();
        std::mem::swap(&mut v, &mut self.entries);
        match pos {
            Some(i) => {
                v.set(i, m);
                proof {
                    assert(v@.map_values(|m: Movie| m@) =~= s.update(i as int, x));
                    lemma_table_update(s, i as int, x);
                }
            },
            None => {
                proof {
                    assert forall|j: int| 0 <= j < s.len() implies #[trigger] s[j].id != x.id by {
                        assert(s[j] == v@[j]@);
                    }
                }
                v.push(m);
                proof {
                    assert(v@.map_values(|m: Movie| m@) =~= s.push(x));
                    lemma_table_push(s, x);
                }
            },
        }
        self.entries = v;
    }

    /// Removes the record filed under `id`, if any.
    pub fn remove(&mut self, id: &String)
        ensures
            final(self)@ == old(self)@.remove(id@),
    {
        proof {
            use_type_invariant(&*self);
            lemma_table_model(self.models());
        }
        match self.position(id) {
            Some(i) => {
                let ghost s = self.models();
                let mut v: Vec<Movie> = Vec::new();
                std::mem::swap(&mut v, &mut self.entries);
                v.remove(i);
                proof {
                    assert(s[i as int].id == id@);
                    assert(v@.map_values(|m: Movie| m@) =~= s.remove(i as int));
                    lemma_table_remove(s, i as int);
                }
                self.entries = v;
            },
            None => {
                assert forall|j: int| 0 <= j < self.models().len() implies
                    #[trigger] self.models()[j].id != id@ by {
                    assert(self.models()[j] == self.entries@[j]@);
                }
                assert(self@.remove(id@) =~= self@);
            },
        }
    }

    /// Removes every record.
    pub fn clear(&mut self)
        ensures
            final(self)@ == Map::<Seq<char>, MovieModel>::empty(),
    {
        self.entries = Vec::new();
        assert(self.models() =~= Seq::<MovieModel>::empty());
    }
}

} // verus!
