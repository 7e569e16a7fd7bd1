use vstd::prelude::*;

verus! {

/// The identity of a participant or an administrator: the bytes of its
/// address. Two identities are the same exactly when their bytes are.
#[derive(Clone, Debug, PartialEq, Eq, Hash)]
pub struct Identity {
    pub key: Vec<u8>,
}

impl View for Identity {
    type V = Seq<u8>;

    open spec fn view(&self) -> Seq<u8> {
        self.key@
    }
}

/// Copies a byte string.
pub fn copy_bytes(bytes: &Vec<u8>) -> (copy: Vec<u8>)
    ensures
        copy@ == bytes@,
{
    let mut copy: Vec<u8> = Vec::new();
    let mut i: usize = 0;
    while i < bytes.len()
        invariant
            i <= bytes.len(),
            copy@ == bytes@.take(i as int),
        decreases bytes.len() - i,
    {
        copy.push(bytes[i]);
        assert(bytes@.take(i as int).push(bytes@[i as int]) =~= bytes@.take(i + 1));
        i += 1;
    }
    assert(bytes@.take(bytes.len() as int) =~= bytes@);
    copy
}

impl Identity {
    /// The identity with the given address bytes.
    pub fn new(key: Vec<u8>) -> (id: Identity)
        ensures
            id@ == key@,
    {
        Identity { key }
    }

    /// Whether two identities are the same.
    pub fn same_as(&self, other: &Identity) -> (same: bool)
        ensures
            same == (self@ == other@),
    {
        if self.key.len() != other.key.len() {
            return false;
        }
        let mut i: usize = 0;
        while i < self.key.len()
            invariant
                i <= self.key.len(),
                self.key.len() == other.key.len(),
                self@.take(i as int) == other@.take(i as int),
            decreases self.key.len() - i,
        {
            if self.key[i] != other.key[i] {
                return false;
            }
            assert(self@.take(i + 1) =~= self@.take(i as int).push(self@[i as int]));
            assert(other@.take(i + 1) =~= other@.take(i as int).push(other@[i as int]));
            i += 1;
        }
        assert(self@.take(self.key.len() as int) =~= self@);
        assert(other@.take(other.key.len() as int) =~= other@);
        true
    }

    /// A copy of the identity.
    pub fn duplicate(&self) -> (copy: Identity)
        ensures
            copy@ == self@,
    {
        Identity { key: copy_bytes(&self.key) }
    }
}

} // verus!
