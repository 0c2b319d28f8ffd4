use vstd::prelude::*;
use crate::movie::{Movie, MovieModel};
use crate::table::MovieTable;

verus! {

/// The auxiliary layer in front of the store. Never authoritative: an
/// absent entry is a miss, not an error.
pub struct Cache {
    table: MovieTable,
}

impl View for Cache {
    type V = Map<Seq<char>, MovieModel>;

    closed spec fn view(&self) -> Map<Seq<char>, MovieModel> {
        self.table@
    }
}

impl Cache {
    pub fn new() -> (r: Cache)
        ensures
            r@ == Map::<Seq<char>, MovieModel>::empty(),
    {
        Cache { table: MovieTable::new() }
    }

    /// A copy of the entry cached under `id`, if any.
    pub fn get(&self, id: &str) -> (r: Option<Movie>)
        ensures
            r is Some <==> self@.contains_key(id@),
            r is Some ==> r->0@ == self@[id@] && r->0@.id == id@,
    {
        self.table.get(&id.to_owned())
    }

    /// Caches `m` under its identifier, overwriting any entry there.
    pub fn put(&mut self, m: Movie)
        ensures
            final(self)@ == old(self)@.insert(m@.id, m@),
    {
        self.table.put(m);
    }

    /// Drops the entry cached under `id`, if any.
    pub fn invalidate(&mut self, id: &str)
        ensures
            final(self)@ == old(self)@.remove(id@),
    {
        self.table.remove(&id.to_owned());
    }

    /// Drops every entry.
    pub fn clear(&mut self)
        ensures
            final(self)@ == Map::<Seq<char>, MovieModel>::empty(),
    {
        self.table.clear();
    }
}

} // verus!
