use vstd::prelude::*;

verus! {

/// A compression level on the deflate compressor's numeric scale:
/// 0 (no compression) through 9 (best compression).
#[derive(Clone, Copy, Debug)]
pub struct CompressionLevel {
    level: u32,
}

impl View for CompressionLevel {
    type V = int;

    closed spec fn view(&self) -> int {
        self.level as int
    }
}

impl CompressionLevel {
    #[verifier::type_invariant]
    spec fn in_scale(self) -> bool {
        self.level <= 9
    }

    /// Accepts exactly the levels of the compressor's scale.
    pub fn new(level: u32) -> (r: Option<CompressionLevel>)
        ensures
            level <= 9 ==> (r matches Some(l) && l@ == level as int),
            level > 9 ==> r is None,
    {
        if level <= 9 {
            Some(CompressionLevel { level })
        } else {
            None
        }
    }

    /// The numeric level, always within the compressor's scale.
    pub fn value(&self) -> (r: u32)
        ensures
            r as int == self@,
            r <= 9,
    {
        proof {
            use_type_invariant(self);
        }
        self.level
    }
}

impl Default for CompressionLevel {
    /// The compressor's customary default level.
    fn default() -> (r: CompressionLevel)
        ensures
            r@ == 6,
    {
        CompressionLevel { level: 6 }
    }
}

} // verus!
