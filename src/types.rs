use vstd::prelude::*;
use inco_lightning::types::Euint128;

verus! {

broadcast use vstd::array::group_array_axioms;

#[verifier::external_type_specification]
#[verifier::external_body]
pub struct ExEuint128(inco_lightning::types::Euint128);

#[verifier::external_type_specification]
#[verifier::external_body]
pub struct ExEbool(inco_lightning::types::Ebool);

/// A 32-byte public key: identifies principals (owners, authorities,
/// delegates) as well as the ledger entities themselves.
#[derive(Clone, Copy, Debug)]
pub struct Address {
    pub bytes: [u8; 32],
}

impl Address {
    pub fn new(bytes: [u8; 32]) -> (r: Address)
        ensures
            r.bytes == bytes,
    {
        Address { bytes }
    }
}

impl PartialEq for Address {
    fn eq(&self, other: &Address) -> (r: bool)
        ensures
            r == (self.bytes == other.bytes),
    {
        let mut i: usize = 0;
        while i < 32
            invariant
                i <= 32,
                forall|j: int| 0 <= j < i ==> self.bytes[j] == other.bytes[j],
            decreases 32 - i,
        {
            if self.bytes[i] != other.bytes[i] {
                return false;
            }
            i = i + 1;
        }
        assert(self.bytes =~= other.bytes);
        true
    }
}

impl vstd::std_specs::cmp::PartialEqSpecImpl for Address {
    open spec fn obeys_eq_spec() -> bool {
        true
    }

    open spec fn eq_spec(&self, other: &Address) -> bool {
        self.bytes == other.bytes
    }
}

impl Eq for Address {}

/// An optional value as the ledger stores it: `Absent` for a missing authority
/// (the capability it guards is disabled for good), `Present` otherwise.
#[derive(Clone, Copy, Debug, PartialEq, Eq)]
pub enum COption<T> {
    Absent,
    Present(T),
}

impl<T> Default for COption<T> {
    fn default() -> (r: Self)
        ensures
            r is Absent,
    {
        COption::Absent
    }
}

impl<T> COption<T> {
    pub fn is_some(&self) -> (r: bool)
        ensures
            r == (*self is Present),
    {
        match self {
            COption::Present(_) => true,
            COption::Absent => false,
        }
    }

    pub fn is_none(&self) -> (r: bool)
        ensures
            r == (*self is Absent),
    {
        match self {
            COption::Present(_) => false,
            COption::Absent => true,
        }
    }
}

/// The stored form of an optional argument.
pub open spec fn coption_of<T>(o: Option<T>) -> COption<T> {
    match o {
        Option::Some(v) => COption::Present(v),
        Option::None => COption::Absent,
    }
}

pub fn to_coption<T>(o: Option<T>) -> (r: COption<T>)
    ensures
        r == coption_of(o),
{
    match o {
        Option::Some(v) => COption::Present(v),
        Option::None => COption::Absent,
    }
}

/// Lifecycle of a token account: `Uninitialized` is left once and never
/// re-entered; afterwards the account moves between `Initialized` and `Frozen`.
#[derive(Clone, Copy, Debug, PartialEq, Eq, Structural)]
pub enum AccountState {
    Uninitialized,
    Initialized,
    Frozen,
}

/// An issuable asset class.
#[derive(Clone, Copy, Debug, PartialEq, Eq)]
pub struct IncoMint {
    /// Who may mint new tokens; `Absent` fixes the supply for good.
    pub mint_authority: COption<Address>,
    /// Total supply, encrypted.
    pub supply: Euint128,
    /// Number of base 10 digits to the right of the decimal point.
    pub decimals: u8,
    /// Set once, when the mint is initialized.
    pub is_initialized: bool,
    /// Who may freeze accounts of this mint; `Absent` means none can be frozen.
    pub freeze_authority: COption<Address>,
}

impl IncoMint {
    /// Length of a stored mint record, in bytes.
    pub const LEN: usize = 36 + 32 + 1 + 1 + 36;
}

/// One holder's encrypted balance of one mint.
#[derive(Clone, Copy, Debug, PartialEq, Eq)]
pub struct IncoAccount {
    /// The mint this account belongs to.
    pub mint: Address,
    /// The identity that controls the account.
    pub owner: Address,
    /// Balance, encrypted.
    pub amount: Euint128,
    /// The one delegate allowed to spend from the account, if any.
    pub delegate: COption<Address>,
    pub state: AccountState,
    /// Present for a wrapped native-asset account: the rent-exempt reserve.
    pub is_native: COption<u64>,
    /// Amount granted to the delegate, encrypted; meaningful only while a
    /// delegate is present.
    pub delegated_amount: Euint128,
    /// A second identity allowed to close the account.
    pub close_authority: COption<Address>,
}

impl IncoAccount {
    /// Length of a stored account record, in bytes.
    pub const LEN: usize = 32 + 32 + 32 + 36 + 1 + 12 + 32 + 36;
}

} // verus!
