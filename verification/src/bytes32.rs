use vstd::prelude::*;

verus! {

/// Whether `s` is the all-zero 32-byte word that a losing claim attempt
/// returns.
pub open spec fn all_zero(s: Seq<u8>) -> bool {
    s.len() == 32 && forall|i: int| 0 <= i < s.len() ==> s[i] == 0
}

/// An owned copy of a byte vector.
pub fn copy_bytes(v: &Vec<u8>) -> (r: Vec<u8>)
    ensures
        r@ == v@,
{
    let mut out: Vec<u8> = Vec::new();
    let mut i: usize = 0;
    while i < v.len()
        invariant
            i <= v@.len(),
            out@ == v@.subrange(0, i as int),
        decreases v@.len() - i,
    {
        out.push(v[i]);
        assert(out@ == v@.subrange(0, i + 1));
        i = i + 1;
    }
    assert(v@.subrange(0, v@.len() as int) == v@);
    out
}

/// A fixed-width 32-byte word: the payload a proof verifier answers with,
/// and the hash naming a replacement code blob.
#[derive(Debug)]
pub struct Bytes32 {
    bytes: Vec<u8>,
}

impl View for Bytes32 {
    type V = Seq<u8>;

    closed spec fn view(&self) -> Seq<u8> {
        self.bytes@
    }
}

impl Bytes32 {
    /// A value is well formed when it holds exactly 32 bytes.
    pub open spec fn wf(&self) -> bool {
        self@.len() == 32
    }

    /// Wraps `bytes` when they have the exact width.
    pub fn new(bytes: Vec<u8>) -> (r: Option<Bytes32>)
        ensures
            match r {
                Some(b) => b.wf() && b@ == bytes@,
                None => bytes@.len() != 32,
            },
    {
        if bytes.len() == 32 {
            Some(Bytes32 { bytes })
        } else {
            None
        }
    }

    /// The all-zero word.
    pub fn zero() -> (r: Bytes32)
        ensures
            r.wf(),
            all_zero(r@),
    {
        let mut bytes: Vec<u8> = Vec::new();
        let mut i: usize = 0;
        while i < 32
            invariant
                i <= 32,
            bytes@.len() == i,
                forall|j: int| 0 <= j < i ==> bytes@[j] == 0,
            decreases 32 - i,
        {
            bytes.push(0);
            i = i + 1;
        }
        Bytes32 { bytes }
    }

    /// An owned copy of the word's bytes.
    pub fn to_vec(&self) -> (r: Vec<u8>)
        ensures
            r@ == self@,
    {
        copy_bytes(&self.bytes)
    }

    /// An owned word with the same bytes.
    pub fn duplicate(&self) -> (r: Bytes32)
        ensures
            r@ == self@,
    {
        Bytes32 { bytes: copy_bytes(&self.bytes) }
    }

    /// Whether the word is all zero, the mark of a losing attempt.
    pub fn is_zero(&self) -> (r: bool)
        requires
            self.wf(),
        ensures
            r == all_zero(self@),
    {
        let mut i: usize = 0;
        while i < self.bytes.len()
            invariant
                i <= self@.len(),
                forall|j: int| 0 <= j < i ==> self@[j] == 0,
        decreases self@.len() - i,
        {
            if self.bytes[i] != 0 {
                return false;
            }
            i = i + 1;
        }
        true
    }
}

} // verus!
