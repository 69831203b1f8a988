use vstd::prelude::*;

verus! {

/// Which kind of account an [`Address`] names.
#[derive(Clone, Copy, Debug, PartialEq, Eq, Structural, Hash)]
pub enum AddressKind {
    /// An account controlled by an ed25519 key.
    Account,
    /// A deployed contract.
    Contract,
}

/// A ledger address: its kind together with its 32-byte payload, held as
/// two big-endian 128-bit halves.  Two addresses are equal exactly when
/// their kind and payload are equal.
#[derive(Clone, Copy, Debug, PartialEq, Eq, Structural, Hash)]
pub struct Address {
    pub kind: AddressKind,
    pub hi: u128,
    pub lo: u128,
}

} // verus!

verus! {

/// Whether `list` holds `addr`.
pub fn list_contains(list: &Vec<Address>, addr: &Address) -> (r: bool)
    ensures
        r == list@.contains(*addr),
{
    let n = list.len();
    let mut i: usize = 0;
    while i < n
        invariant
            n == list@.len(),
            i <= n,
            forall|j: int| 0 <= j < i ==> list@[j] != *addr,
        decreases n - i,
    {
        if list[i] == *addr {
            assert(list@[i as int] == *addr);
            return true;
        }
        i = i + 1;
    }
    false
}

/// A copy of `list` with the same addresses in the same order.
pub fn copy_list(list: &Vec<Address>) -> (r: Vec<Address>)
    ensures
        r@ == list@,
{
    let r = list.clone();
    assert(r@ =~= list@);
    r
}

} // verus!
