use vstd::prelude::*;

verus! {

/// Hands out command identifiers: each call returns the next integer of a
/// counter that starts at zero.
#[derive(Debug)]
pub struct UIDHandler {
    latest_id: i64,
}

impl View for UIDHandler {
    type V = int;

    /// The identifier that the next call of `generate_new_id` returns.
    closed spec fn view(&self) -> int {
        self.latest_id as int
    }
}

impl UIDHandler {
    /// A handler whose first identifier is zero.
    pub fn new() -> (r: Self)
        ensures
            r@ == 0,
    {
        Self { latest_id: 0 }
    }

    /// Returns the current identifier and advances the counter by one.
    pub fn generate_new_id(&mut self) -> (id: i64)
        requires
            old(self)@ < i64::MAX,
        ensures
            id == old(self)@,
            final(self)@ == old(self)@ + 1,
    {
        let id = self.latest_id;
        self.latest_id = self.latest_id + 1;
        id
    }

    /// The identifier that the next call of `generate_new_id` will return.
    pub fn latest_id(&self) -> (r: i64)
        ensures
            r == self@,
    {
        self.latest_id
    }
}

} // verus!
