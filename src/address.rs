//! Addresses of accounts and contracts, and the storage keys derived from them.
use vstd::prelude::*;

verus! {

/// An account or contract address, held as the serialized bytes of the host's
/// key. Two addresses are the same exactly when their bytes are.
#[derive(Clone, Debug)]
pub struct Address {
    pub bytes: Vec<u8>,
}

impl View for Address {
    type V = Seq<u8>;

    open spec fn view(&self) -> Seq<u8> {
        self.bytes@
    }
}

impl Address {
    pub fn new(bytes: Vec<u8>) -> (r: Address)
        ensures
            r@ == bytes@,
    {
        Address { bytes }
    }

    /// An address with the same bytes.
    pub fn duplicate(&self) -> (r: Address)
        ensures
            r@ == self@,
    {
        let mut bytes: Vec<u8> = Vec::with_capacity(self.bytes.len());
        let mut i: usize = 0;
        while i < self.bytes.len()
            invariant
                i <= self.bytes@.len(),
                bytes@ == self.bytes@.subrange(0, i as int),
            decreases self.bytes@.len() - i,
        {
            bytes.push(self.bytes[i]);
            i += 1;
        }
        assert(bytes@ == self.bytes@.subrange(0, self.bytes@.len() as int));
        Address { bytes }
    }

    pub fn same(&self, other: &Address) -> (r: bool)
        ensures
            r == (self@ == other@),
    {
        if self.bytes.len() != other.bytes.len() {
            return false;
        }
        let mut i: usize = 0;
        while i < self.bytes.len()
            invariant
                self.bytes@.len() == other.bytes@.len(),
                i <= self.bytes@.len(),
                forall|j: int| 0 <= j < i ==> self.bytes@[j] == other.bytes@[j],
            decreases self.bytes@.len() - i,
        {
            if self.bytes[i] != other.bytes[i] {
                return false;
            }
            i += 1;
        }
        assert(self.bytes@ =~= other.bytes@);
        true
    }
}

impl PartialEq for Address {
    fn eq(&self, other: &Address) -> (r: bool) {
        self.same(other)
    }
}

impl vstd::std_specs::cmp::PartialEqSpecImpl for Address {
    open spec fn obeys_eq_spec() -> bool {
        true
    }

    open spec fn eq_spec(&self, other: &Address) -> bool {
        self@ == other@
    }
}

impl Eq for Address {

}

/// The bytes of each address of a sequence.
pub open spec fn views(s: Seq<Address>) -> Seq<Seq<u8>> {
    Seq::new(s.len(), |i: int| s[i]@)
}

/// The bytes from which the storage item of the allowance that `owner` gives
/// `spender` is named: the owner's bytes followed by the spender's.
pub fn allowance_item_preimage(owner: &Address, spender: &Address) -> (r: Vec<u8>)
    ensures
        r@ == owner@ + spender@,
{
    let mut r = owner.duplicate().bytes;
    let mut i: usize = 0;
    while i < spender.bytes.len()
        invariant
            i <= spender.bytes@.len(),
            r@ == owner@ + spender.bytes@.subrange(0, i as int),
        decreases spender.bytes@.len() - i,
    {
        r.push(spender.bytes[i]);
        i += 1;
        assert(spender.bytes@.subrange(0, i as int) == spender.bytes@.subrange(0, i - 1).push(
            spender.bytes@[i - 1],
        ));
    }
    assert(spender.bytes@.subrange(0, spender.bytes@.len() as int) == spender@);
    r
}

/// The lower-case hexadecimal digit for a value below sixteen.
pub open spec fn hex_digit(n: u8) -> char {
    if n < 10 {
        ((n + 48) as u8) as char
    } else {
        ((n + 87) as u8) as char
    }
}

/// Two lower-case hexadecimal digits per byte, the high digit first.
pub open spec fn hex_string(bytes: Seq<u8>) -> Seq<char>
    decreases bytes.len(),
{
    if bytes.len() == 0 {
        Seq::empty()
    } else {
        seq![hex_digit(bytes[0] / 16), hex_digit(bytes[0] % 16)] + hex_string(bytes.drop_first())
    }
}

/// Relies on hex::encode: each byte becomes two lower-case hexadecimal digits,
/// the high one first.
#[verifier::external_body]
fn hex_encode(bytes: &[u8]) -> (r: String)
    ensures
        r@ == hex_string(bytes@),
{
    hex::encode(bytes)
}

/// The name under which a dictionary item is stored, given the digest of the
/// bytes that identify it: the digest in lower-case hexadecimal.
pub fn dictionary_item_key(digest: &[u8]) -> (r: String)
    ensures
        r@ == hex_string(digest@),
        r@.len() == 2 * digest@.len(),
{
    proof {
        lemma_hex_string_len(digest@);
    }
    hex_encode(digest)
}

pub proof fn lemma_hex_string_len(bytes: Seq<u8>)
    ensures
        hex_string(bytes).len() == 2 * bytes.len(),
    decreases bytes.len(),
{
    if bytes.len() > 0 {
        lemma_hex_string_len(bytes.drop_first());
    }
}

} // verus!
