use vstd::prelude::*;

verus! {

/// A 32-byte account address (an ed25519 public key or a program-derived address).
#[derive(Clone, Copy, Debug)]
pub struct Pubkey {
    pub bytes: [u8; 32],
}

impl View for Pubkey {
    type V = Seq<u8>;

    open spec fn view(&self) -> Seq<u8> {
        self.bytes@
    }
}

/// The all-zero sequence of 32 bytes: the default (unset) address.
pub open spec fn zero_key() -> Seq<u8> {
    Seq::new(32, |i: int| 0u8)
}

/// Address of this program.
pub open spec fn spec_program_id() -> Seq<u8> {
    seq![
        97u8, 200u8, 31u8, 110u8, 113u8, 240u8, 57u8, 243u8, 82u8, 215u8, 105u8, 16u8, 238u8,
        137u8, 228u8, 187u8, 237u8, 41u8, 9u8, 21u8, 120u8, 155u8, 95u8, 80u8, 195u8, 218u8,
        179u8, 45u8, 106u8, 138u8, 153u8, 128u8,
    ]
}

/// Address of the Pyth Receiver program that owns `PriceUpdateV2` accounts.
pub open spec fn spec_pyth_receiver_id() -> Seq<u8> {
    seq![
        12u8, 183u8, 250u8, 187u8, 82u8, 247u8, 166u8, 72u8, 187u8, 91u8, 49u8, 125u8, 154u8,
        1u8, 139u8, 144u8, 87u8, 203u8, 2u8, 71u8, 116u8, 250u8, 254u8, 1u8, 230u8, 196u8,
        223u8, 152u8, 204u8, 56u8, 88u8, 129u8,
    ]
}

/// Whether two byte arrays of the same length hold the same bytes.
pub fn bytes_equal<const N: usize>(a: &[u8; N], b: &[u8; N]) -> (r: bool)
    ensures
        r == (a@ == b@),
{
    let mut i: usize = 0;
    while i < N
        invariant
            i <= N,
            a@.len() == N,
            b@.len() == N,
            forall|j: int| 0 <= j < i ==> a@[j] == b@[j],
        decreases N - i,
    {
        if a[i] != b[i] {
            return false;
        }
        i = i + 1;
    }
    assert(a@ =~= b@);
    true
}

/// Whether some byte of the array is non-zero.
pub fn any_nonzero<const N: usize>(a: &[u8; N]) -> (r: bool)
    ensures
        r == (exists|j: int| 0 <= j < N && a@[j] != 0),
{
    let mut i: usize = 0;
    while i < N
        invariant
            i <= N,
            a@.len() == N,
            forall|j: int| 0 <= j < i ==> a@[j] == 0,
        decreases N - i,
    {
        if a[i] != 0 {
            return true;
        }
        i = i + 1;
    }
    false
}

impl Pubkey {
    /// The address made of the given bytes.
    pub fn new_from_array(bytes: [u8; 32]) -> (k: Pubkey)
        ensures
            k@ == bytes@,
    {
        Pubkey { bytes }
    }

    /// The all-zero address.
    pub fn zero() -> (k: Pubkey)
        ensures
            k@ == zero_key(),
    {
        let k = Pubkey { bytes: [0u8; 32] };
        assert(k@ =~= zero_key());
        k
    }

    /// Whether two addresses are the same.
    pub fn key_eq(&self, other: &Pubkey) -> (r: bool)
        ensures
            r == (self@ == other@),
    {
        bytes_equal(&self.bytes, &other.bytes)
    }

    /// This program's address.
    pub fn program_id() -> (k: Pubkey)
        ensures
            k@ == spec_program_id(),
    {
        let k = Pubkey {
            bytes: [
                97, 200, 31, 110, 113, 240, 57, 243, 82, 215, 105, 16, 238, 137, 228, 187, 237,
                41, 9, 21, 120, 155, 95, 80, 195, 218, 179, 45, 106, 138, 153, 128,
            ],
        };
        assert(k@ =~= spec_program_id());
        k
    }

    /// The Pyth Receiver program's address.
    pub fn pyth_receiver_id() -> (k: Pubkey)
        ensures
            k@ == spec_pyth_receiver_id(),
    {
        let k = Pubkey {
            bytes: [
                12, 183, 250, 187, 82, 247, 166, 72, 187, 91, 49, 125, 154, 1, 139, 144, 87,
                203, 2, 71, 116, 250, 254, 1, 230, 196, 223, 152, 204, 56, 88, 129,
            ],
        };
        assert(k@ =~= spec_pyth_receiver_id());
        k
    }
}

impl Default for Pubkey {
    fn default() -> (k: Pubkey)
        ensures
            k@ == zero_key(),
    {
        Pubkey::zero()
    }
}

} // verus!
