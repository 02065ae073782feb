//! Entries of the shared document, as this layer writes them.
use vstd::prelude::*;
use vstd::utf8::encode_utf8;

verus! {

/// The shared document as this layer sees it: each key holds the bytes last
/// written under it.
pub type DocModel = Map<Seq<u8>, Seq<u8>>;

/// A key and the bytes to store under it.
#[derive(Clone, Debug, PartialEq, Eq)]
pub struct Entry {
    pub key: Vec<u8>,
    pub value: Vec<u8>,
}

impl Entry {
    /// The document after this entry is written to it.
    pub open spec fn written_to(self, doc: DocModel) -> DocModel {
        doc.insert(self.key@, self.value@)
    }
}

pub(crate) fn bytes_of_str(s: &str) -> (r: Vec<u8>)
    ensures
        r@ == encode_utf8(s@),
{
    let b = s.as_bytes();
    let mut r: Vec<u8> = Vec::new();
    let mut i: usize = 0;
    while i < b.len()
        invariant
            i <= b@.len(),
            r@ == b@.subrange(0, i as int),
        decreases b@.len() - i,
    {
        r.push(b[i]);
        i = i + 1;
        assert(r@ =~= b@.subrange(0, i as int));
    }
    assert(b@.subrange(0, i as int) =~= b@);
    r
}

} // verus!
