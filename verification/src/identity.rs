use vstd::prelude::*;

verus! {

/// The byte width of every participant identity.
pub const IDENTITY_LEN: usize = 32;

/// The view of the reserved null identity: all-zero bytes. It stands for
/// "no owner" and for the burn destination of a released token.
pub open spec fn null_id() -> Seq<u8> {
    Seq::new(32, |i: int| 0u8)
}

/// A participant's identity: a fixed-width opaque byte value. A distinguished
/// all-zero value ([`null_id`]) represents "no owner".
#[derive(Debug)]
pub struct Identity {
    bytes: Vec<u8>,
}

impl View for Identity {
    type V = Seq<u8>;

    closed spec fn view(&self) -> Seq<u8> {
        self.bytes@
    }
}

impl Identity {
    /// A well-formed identity holds exactly [`IDENTITY_LEN`] bytes.
    pub open spec fn wf(&self) -> bool {
        self@.len() == 32
    }

    /// Wraps raw bytes as an identity; rejects any value of the wrong width.
    pub fn from_bytes(bytes: Vec<u8>) -> (r: Option<Identity>)
        ensures
            match r {
                Some(id) => bytes@.len() == 32 && id@ == bytes@ && id.wf(),
                None => bytes@.len() != 32,
            },
    {
        if bytes.len() == IDENTITY_LEN {
            Some(Identity { bytes })
        } else {
            None
        }
    }

    /// The reserved "no owner" identity.
    pub fn null() -> (r: Identity)
        ensures
            r@ == null_id(),
            r.wf(),
    {
        let mut bytes: Vec<u8> = Vec::new();
        let mut i: usize = 0;
        while i < IDENTITY_LEN
            invariant
                i <= 32,
                bytes@.len() == i,
                forall|k: int| 0 <= k < i ==> bytes@[k] == 0u8,
            decreases 32 - i,
        {
            bytes.push(0u8);
            i = i + 1;
        }
        proof {
            assert(bytes@ =~= null_id());
        }
        Identity { bytes }
    }

    /// The raw bytes of the identity, as used for key material and digests.
    pub fn as_bytes(&self) -> (r: &Vec<u8>)
        ensures
            r@ == self@,
    {
        &self.bytes
    }

    /// An independent copy of the identity.
    pub fn duplicate(&self) -> (r: Identity)
        ensures
            r@ == self@,
    {
        let mut bytes: Vec<u8> = Vec::new();
        let mut i: usize = 0;
        while i < self.bytes.len()
            invariant
                i <= self@.len(),
                bytes@.len() == i,
                forall|k: int| 0 <= k < i ==> bytes@[k] == self@[k],
            decreases self@.len() - i,
        {
            bytes.push(self.bytes[i]);
            i = i + 1;
        }
        proof {
            assert(bytes@ =~= self@);
        }
        Identity { bytes }
    }

    /// Whether this identity is the reserved null identity.
    pub fn is_null(&self) -> (r: bool)
        ensures
            r == (self@ == null_id()),
    {
        let null = Identity::null();
        bytes_eq(&self.bytes, &null.bytes)
    }

    /// Appends the identity's bytes to a buffer.
    pub fn append_to(&self, out: &mut Vec<u8>)
        ensures
            final(out)@ == old(out)@ + self@,
    {
        let mut i: usize = 0;
        while i < self.bytes.len()
            invariant
                i <= self@.len(),
                out@ == old(out)@ + self@.take(i as int),
            decreases self@.len() - i,
        {
            out.push(self.bytes[i]);
            proof {
                assert(old(out)@ + self@.take(i as int + 1) =~= (old(out)@ + self@.take(
                    i as int,
                )).push(self@[i as int]));
            }
            i = i + 1;
        }
        proof {
            assert(self@.take(self@.len() as int) =~= self@);
        }
    }
}

/// Byte-for-byte equality of two buffers.
pub fn bytes_eq(a: &Vec<u8>, b: &Vec<u8>) -> (r: bool)
    ensures
        r == (a@ == b@),
{
    if a.len() != b.len() {
        return false;
    }
    let mut i: usize = 0;
    while i < a.len()
        invariant
            a@.len() == b@.len(),
            i <= a@.len(),
            forall|k: int| 0 <= k < i ==> a@[k] == b@[k],
        decreases a@.len() - i,
    {
        if a[i] != b[i] {
            return false;
        }
        i = i + 1;
    }
    proof {
        assert(a@ =~= b@);
    }
    true
}

impl PartialEq for Identity {
    fn eq(&self, other: &Self) -> (r: bool) {
        bytes_eq(&self.bytes, &other.bytes)
    }
}

impl vstd::std_specs::cmp::PartialEqSpecImpl for Identity {
    open spec fn obeys_eq_spec() -> bool {
        true
    }

    open spec fn eq_spec(&self, other: &Self) -> bool {
        self@ == other@
    }
}

} // verus!
