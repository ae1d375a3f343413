//! Account identifiers and their text.

use vstd::prelude::*;

verus! {

/// A 20-byte account identifier.
#[derive(Clone, Copy, Debug)]
pub struct Address {
    pub bytes: [u8; 20],
}

impl View for Address {
    type V = Seq<u8>;

    open spec fn view(&self) -> Seq<u8> {
        self.bytes@
    }
}

/// The lower-case hexadecimal digit of a value below sixteen.
pub open spec fn hex_digit(n: u8) -> char {
    "0123456789abcdef"@[n as int]
}

/// Two lower-case hexadecimal digits per byte, in order.
pub open spec fn hex_text(bytes: Seq<u8>) -> Seq<char>
    decreases bytes.len(),
{
    if bytes.len() == 0 {
        Seq::empty()
    } else {
        hex_text(bytes.drop_last()) + seq![hex_digit(bytes.last() / 16), hex_digit(bytes.last() % 16)]
    }
}

/// The text of an address: `0x` followed by two hexadecimal digits for every byte.
pub open spec fn full_text(address: Seq<u8>) -> Seq<char> {
    seq!['0', 'x'] + hex_text(address)
}

/// Different values below sixteen have different digits.
pub proof fn lemma_hex_digit_injective(a: u8, b: u8)
    requires
        a < 16,
        b < 16,
        hex_digit(a) == hex_digit(b),
    ensures
        a == b,
{
    reveal_strlit("0123456789abcdef");
}

/// The text of a byte string has two digits for every byte.
pub proof fn lemma_hex_text_len(bytes: Seq<u8>)
    ensures
        hex_text(bytes).len() == 2 * bytes.len(),
    decreases bytes.len(),
{
    if bytes.len() > 0 {
        lemma_hex_text_len(bytes.drop_last());
    }
}

/// Byte strings of one length with the same text are the same.
pub proof fn lemma_hex_text_injective(a: Seq<u8>, b: Seq<u8>)
    requires
        a.len() == b.len(),
        hex_text(a) == hex_text(b),
    ensures
        a == b,
    decreases a.len(),
{
    if a.len() == 0 {
        assert(a =~= b);
    } else {
        let head_a = hex_text(a.drop_last());
        let head_b = hex_text(b.drop_last());
        let pair_a = seq![hex_digit(a.last() / 16), hex_digit(a.last() % 16)];
        let pair_b = seq![hex_digit(b.last() / 16), hex_digit(b.last() % 16)];
        lemma_hex_text_len(a.drop_last());
        lemma_hex_text_len(b.drop_last());
        let n = head_a.len() as int;
        assert(head_a =~= (head_a + pair_a).subrange(0, n));
        assert(head_b =~= (head_b + pair_b).subrange(0, n));
        assert(pair_a[0] == (head_a + pair_a)[n]);
        assert(pair_b[0] == (head_b + pair_b)[n]);
        assert(pair_a[1] == (head_a + pair_a)[n + 1]);
        assert(pair_b[1] == (head_b + pair_b)[n + 1]);
        lemma_hex_digit_injective(a.last() / 16, b.last() / 16);
        lemma_hex_digit_injective(a.last() % 16, b.last() % 16);
        assert(a.last() == b.last());
        lemma_hex_text_injective(a.drop_last(), b.drop_last());
        assert(a =~= a.drop_last().push(a.last()));
        assert(b =~= b.drop_last().push(b.last()));
    }
}

/// Addresses that differ in any byte have different texts.
pub proof fn lemma_full_text_injective(a: Seq<u8>, b: Seq<u8>)
    requires
        a.len() == b.len(),
        full_text(a) == full_text(b),
    ensures
        a == b,
{
    let prefix = seq!['0', 'x'];
    lemma_hex_text_len(a);
    lemma_hex_text_len(b);
    assert(hex_text(a) =~= (prefix + hex_text(a)).subrange(2, 2 + 2 * a.len() as int));
    assert(hex_text(b) =~= (prefix + hex_text(b)).subrange(2, 2 + 2 * b.len() as int));
    lemma_hex_text_injective(a, b);
}

/// Calls the `Debug` impl that `fixed-hash` gives `ethers::types::Address`
/// (`H160`). Trusted: it writes `0x` and then every byte as two lower-case
/// hex digits.
#[verifier::external_body]
fn debug_text(address: &Address) -> (res: String)
    ensures
        res@ == full_text(address@),
{
    format!("{:?}", ethers::types::Address::from(address.bytes))
}

impl Address {
    /// The address made of these twenty bytes.
    pub fn new(bytes: [u8; 20]) -> (res: Address)
        ensures
            res.bytes == bytes,
    {
        Address { bytes }
    }

    /// The full hexadecimal text of this address.
    pub fn to_full_string(&self) -> (res: String)
        ensures
            res@ == full_text(self@),
    {
        debug_text(self)
    }

    /// Whether two addresses hold the same twenty bytes.
    pub fn same_as(&self, other: &Address) -> (res: bool)
        ensures
            res == (self@ == other@),
    {
        let mut i: usize = 0;
        while i < 20
            invariant
                i <= 20,
                forall|j: int| 0 <= j < i ==> self.bytes@[j] == other.bytes@[j],
            decreases 20 - i,
        {
            if self.bytes[i] != other.bytes[i] {
                return false;
            }
            i += 1;
        }
        assert(self@ =~= other@);
        true
    }
}

} // verus!
