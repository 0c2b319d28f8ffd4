use vstd::prelude::*;

verus! {

/// The mathematical value of a movie record.
pub struct MovieModel {
    pub id: Seq<char>,
    pub name: Seq<char>,
    pub year: u16,
    pub was_good: bool,
}

impl MovieModel {
    /// A record is accepted for writing when its identifier is non-empty.
    pub open spec fn is_valid(self) -> bool {
        self.id.len() > 0
    }
}

/// A movie record. Identity is the `id` field; records are copied on read
/// and replaced whole on write.
#[derive(Debug, PartialEq, Eq)]
pub struct Movie {
    pub id: String,
    pub name: String,
    pub year: u16,
    pub was_good: bool,
}

impl View for Movie {
    type V = MovieModel;

    open spec fn view(&self) -> MovieModel {
        MovieModel { id: self.id@, name: self.name@, year: self.year, was_good: self.was_good }
    }
}

impl Movie {
    pub fn new(id: String, name: String, year: u16, was_good: bool) -> (r: Movie)
        ensures
            r@ == (MovieModel { id: id@, name: name@, year, was_good }),
    {
        Movie { id, name, year, was_good }
    }

    /// An independent copy of the record.
    pub fn duplicate(&self) -> (r: Movie)
        ensures
            r@ == self@,
    {
        Movie {
            id: self.id.clone(),
            name: self.name.clone(),
            year: self.year,
            was_good: self.was_good,
        }
    }

    pub fn is_valid(&self) -> (r: bool)
        ensures
            r == self@.is_valid(),
    {
        !self.id.as_str().is_empty()
    }
}

} // verus!
