//! The record kept in the collection.

use vstd::prelude::*;

verus! {

/// A country: plain data, compared and copied by value.
#[derive(Debug, PartialEq, Eq)]
pub struct Country {
    pub name: String,
    pub continent: String,
    pub population: usize,
}

impl Clone for Country {
    /// The copy equals the record it was made from, field by field.
    fn clone(&self) -> (res: Self)
        ensures
            res == *self,
    {
        Country {
            name: self.name.clone(),
            continent: self.continent.clone(),
            population: self.population,
        }
    }
}

} // verus!
