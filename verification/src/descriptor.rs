//! The in-memory representation of one account reference.
//!
//! The host boundary supplies every field already verified: `is_signer` and
//! `is_executable` in particular come from the transaction layer and are
//! never inferred from `data`.

use vstd::prelude::*;

use crate::codec::all_zero_spec;

verus! {

/// The number of bytes in an account address.
pub const ADDRESS_LEN: usize = 32;

/// A 32-byte account identifier.
#[derive(Debug)]
pub struct Address {
    bytes: Vec<u8>,
}

impl View for Address {
    type V = Seq<u8>;

    closed spec fn view(&self) -> Seq<u8> {
        self.bytes@
    }
}

impl Address {
    /// Well-formed addresses hold exactly 32 bytes.
    pub open spec fn wf(&self) -> bool {
        self@.len() == ADDRESS_LEN
    }

    /// Wrap 32 raw bytes as an address; any other length is refused.
    pub fn from_bytes(bytes: Vec<u8>) -> (r: Option<Address>)
        ensures
            bytes@.len() == ADDRESS_LEN ==> (r matches Some(a) && a@ == bytes@ && a.wf()),
            bytes@.len() != ADDRESS_LEN ==> r is None,
    {
        if bytes.len() == ADDRESS_LEN {
            Some(Address { bytes })
        } else {
            None
        }
    }

    /// The address whose 32 bytes all equal `byte`.
    pub fn filled(byte: u8) -> (r: Address)
        ensures
            r.wf(),
            forall|i: int| 0 <= i < ADDRESS_LEN ==> r@[i] == byte,
    {
        let mut bytes: Vec<u8> = Vec::new();
        let mut i: usize = 0;
        while i < ADDRESS_LEN
            invariant
                i <= ADDRESS_LEN,
                bytes@.len() == i,
                forall|j: int| 0 <= j < i ==> bytes@[j] == byte,
            decreases ADDRESS_LEN - i,
        {
            bytes.push(byte);
            i = i + 1;
        }
        Address { bytes }
    }

    /// The system owner: the all-zero address that closed accounts are
    /// reassigned to.
    pub fn system_owner() -> (r: Address)
        ensures
            r.wf(),
            r@ == system_owner_spec(),
    {
        let r = Address::filled(0);
        proof {
            assert(r@ =~= system_owner_spec());
        }
        r
    }

    /// A copy of this address.
    pub fn duplicate(&self) -> (r: Address)
        ensures
            r@ == self@,
            r.wf() == self.wf(),
    {
        let mut bytes: Vec<u8> = Vec::new();
        crate::codec::push_bytes(&mut bytes, &self.bytes);
        Address { bytes }
    }

    /// The raw bytes of this address.
    pub fn to_bytes(&self) -> (r: Vec<u8>)
        ensures
            r@ == self@,
    {
        self.duplicate().bytes
    }

    /// Borrow the raw bytes of this address.
    pub fn as_bytes(&self) -> (r: &Vec<u8>)
        ensures
            r@ == self@,
    {
        &self.bytes
    }

    /// True iff the two addresses hold the same bytes.
    pub fn equals(&self, other: &Address) -> (r: bool)
        ensures
            r == (self@ == other@),
    {
        if self.bytes.len() != other.bytes.len() {
            proof {
                assert(self@ != other@);
            }
            return false;
        }
        let mut i: usize = 0;
        while i < self.bytes.len()
            invariant
                i <= self@.len(),
                self@.len() == other@.len(),
                forall|j: int| 0 <= j < i ==> self@[j] == other@[j],
            decreases self@.len() - i,
        {
            if self.bytes[i] != other.bytes[i] {
                return false;
            }
            i = i + 1;
        }
        proof {
            assert(self@ =~= other@);
        }
        true
    }
}

/// The 32 zero bytes of the system owner.
pub open spec fn system_owner_spec() -> Seq<u8> {
    Seq::new(ADDRESS_LEN as nat, |i: int| 0u8)
}

/// One account as the host hands it to a handler: its address, the program
/// that owns its storage, its raw data bytes, the two host-verified flags
/// and its lamport balance.
pub struct AccountDescriptor {
    /// The account's own 32-byte identifier.
    pub address: Address,
    /// The program that owns this account's storage.
    pub owner_program: Address,
    /// The raw payload; may be empty.
    pub data: Vec<u8>,
    /// True iff this address signed the current request.
    pub is_signer: bool,
    /// True iff this address designates invocable program code.
    pub is_executable: bool,
    /// The unsigned 64-bit balance.
    pub lamports: u64,
}

impl AccountDescriptor {
    /// Well-formed descriptors carry well-formed addresses.
    pub open spec fn wf(&self) -> bool {
        self.address.wf() && self.owner_program.wf()
    }

    /// True when the descriptor satisfies the close-completeness
    /// postcondition: no lamports, only zero data bytes, and storage
    /// reassigned to the system owner.
    pub open spec fn closed_out_spec(&self) -> bool {
        self.lamports == 0 && all_zero_spec(self.data@) && self.owner_program@
            == system_owner_spec()
    }
}

} // verus!
