use vstd::prelude::*;

verus! {

/// One row of the record table: a cat with its name and picture.
#[derive(Clone, Debug, PartialEq, Eq)]
pub struct Cat {
    pub id: i32,
    pub name: String,
    pub image_path: String,
}

impl Cat {
    /// Builds a record from its three columns.
    pub fn new(id: i32, name: String, image_path: String) -> (r: Cat)
        ensures
            r.id == id,
            r.name == name,
            r.image_path == image_path,
    {
        Cat { id, name, image_path }
    }
}

} // verus!
