use vstd::prelude::*;
use crate::movie::{Movie, MovieModel};
use crate::table::MovieTable;

verus! {

/// The authoritative backend: every record the service can return comes
/// from here. It never evicts.
pub struct Store {
    table: MovieTable,
}

impl View for Store {
    type V = Map<Seq<char>, MovieModel>;

    closed spec fn view(&self) -> Map<Seq<char>, MovieModel> {
        self.table@
    }
}

impl Store {
    pub fn new() -> (r: Store)
        ensures
            r@ == Map::<Seq<char>, MovieModel>::empty(),
    {
        Store { table: MovieTable::new() }
    }

    /// A copy of the record stored under `id`, if any.
    pub fn get(&self, id: &str) -> (r: Option<Movie>)
        ensures
            r is Some <==> self@.contains_key(id@),
            r is Some ==> r->0@ == self@[id@] && r->0@.id == id@,
    {
        self.table.get(&id.to_owned())
    }

    /// Inserts `m`, or replaces whole the record with its identifier.
    pub fn put(&mut self, m: Movie)
        ensures
            final(self)@ == old(self)@.insert(m@.id, m@),
    {
        self.table.put(m);
    }
}

} // verus!
