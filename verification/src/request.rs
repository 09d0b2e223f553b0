//! The plain buffer an HTTP client response is handed over in.

use vstd::prelude::*;

verus! {

/// Size of the response buffer.
pub const BUFFER_SIZE: usize = 4096;

/// A received response body: a fixed buffer and how much of it is used.
pub struct ResponseData {
    pub data: [u8; 4096],
    pub length: usize,
}

impl ResponseData {
    /// The used part never exceeds the buffer.
    pub open spec fn wf(&self) -> bool {
        self.length <= BUFFER_SIZE
    }

    /// The bytes of the body: the used prefix of the buffer.
    pub open spec fn body(&self) -> Seq<u8> {
        self.data@.subrange(0, self.length as int)
    }

    /// Copy the used part of the buffer out, for the parsers to work on.
    pub fn body_bytes(&self) -> (r: Vec<u8>)
        requires
            self.wf(),
        ensures
            r@ == self.body(),
    {
        let mut r: Vec<u8> = Vec::new();
        let mut i: usize = 0;
        while i < self.length
            invariant
                self.length <= BUFFER_SIZE,
                self.data@.len() == BUFFER_SIZE,
                i <= self.length,
                r@ == self.data@.subrange(0, i as int),
            decreases self.length - i,
        {
            let b = self.data[i];
            r.push(b);
            proof {
                assert(self.data@.subrange(0, (i + 1) as int) =~= self.data@.subrange(
                    0,
                    i as int,
                ).push(self.data@[i as int]));
            }
            i += 1;
        }
        r
    }
}

} // verus!
