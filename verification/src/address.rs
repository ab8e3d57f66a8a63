use vstd::prelude::*;

verus! {

/// A 32-byte account address: a wallet, a mint, or the derived address of a record.
pub type Address = [u8; 32];

/// The all-zero address, which stands for "no address".
pub open spec fn zero_address() -> Seq<u8> {
    Seq::new(32, |i: int| 0u8)
}

/// Returns the all-zero address.
pub fn default_address() -> (a: Address)
    ensures
        a@ == zero_address(),
{
    let a: Address = [0u8; 32];
    a
}

/// Tells whether two addresses hold the same bytes.
pub fn same_address(a: &Address, b: &Address) -> (same: bool)
    ensures
        same == (a@ == b@),
        same == (*a == *b),
{
    let mut i: usize = 0;
    while i < 32
        invariant
            i <= 32,
            forall|k: int| 0 <= k < i ==> a@[k] == b@[k],
        decreases 32 - i,
    {
        if a[i] != b[i] {
            return false;
        }
        i += 1;
    }
    proof {
        assert(*a =~= *b);
    }
    true
}

/// Tells whether an address is the all-zero address.
pub fn is_default_address(a: &Address) -> (zero: bool)
    ensures
        zero == (a@ == zero_address()),
{
    let mut i: usize = 0;
    while i < 32
        invariant
            i <= 32,
            forall|k: int| 0 <= k < i ==> a@[k] == 0u8,
        decreases 32 - i,
    {
        if a[i] != 0 {
            return false;
        }
        i += 1;
    }
    proof {
        assert(a@ =~= zero_address());
    }
    true
}

} // verus!
