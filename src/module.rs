use vstd::prelude::*;

verus! {

/// Relies on std::hint::black_box: it returns its argument unchanged, and only
/// keeps the optimiser from folding the computation away.
#[verifier::external_body]
fn opaque_u32(x: u32) -> (r: u32)
    ensures
        r == x,
{
    std::hint::black_box(x)
}

/// A request-scoped handle carrying a tag for diagnostics.
#[derive(Debug, Clone, Copy)]
pub struct MyStruct {
    value: u32,
}

impl MyStruct {
    pub closed spec fn tag(&self) -> u32 {
        self.value
    }

    pub fn new(value: u32) -> (r: MyStruct)
        ensures
            r.tag() == value,
    {
        MyStruct { value }
    }

    pub fn value(&self) -> (r: u32)
        ensures
            r == self.tag(),
    {
        self.value
    }

    /// A trivial computation that the optimiser is kept from removing.
    pub fn do_fast_thing(&self) -> (r: u32)
        ensures
            r == 2,
    {
        opaque_u32(opaque_u32(1) + opaque_u32(1))
    }
}

} // verus!
