//! Shared data types: the global configuration, authority update
//! parameters, mint and transfer parameters, token records, and the
//! derived subscription status.

use vstd::prelude::*;

use crate::Address;

verus! {

/// Global configuration of the registry. Set at initialization and
/// mutated only through the maintainer-gated update operation.
#[derive(Clone, Copy, Debug, PartialEq, Eq, Structural)]
pub struct State {
    /// Grace duration copied into each record at mint time.
    pub grace: u64,
    /// Account that receives the sale fee.
    pub benificiary: Address,
    /// Fee percentage copied into each record at mint time.
    pub royalty: u128,
}

impl State {
    /// Overwrites every field of this configuration with `state`.
    pub fn store(&mut self, state: State)
        ensures
            *final(self) == state,
    {
        self.grace = state.grace;
        self.benificiary = state.benificiary;
        self.royalty = state.royalty;
    }
}

/// Which authority set an update targets.
#[derive(Clone, Copy, Debug, PartialEq, Eq, Structural)]
pub enum AuthorityField {
    Maintainer,
    Admin,
}

/// Whether an authority update adds or removes an address.
#[derive(Clone, Copy, Debug, PartialEq, Eq, Structural)]
pub enum UpdateKind {
    Remove,
    Add,
}

/// One authority update: which set, which direction, which address.
#[derive(Clone, Copy, Debug, PartialEq, Eq, Structural)]
pub struct AuthorityUpdateParams {
    pub field: AuthorityField,
    pub kind: UpdateKind,
    pub address: Address,
}

/// One global-configuration update: exactly one field changes.
#[derive(Clone, Copy, Debug, PartialEq, Eq, Structural)]
pub enum UpdateInternalValueParams {
    Royalty(u128),
    Beneficiary(Address),
}

/// Minting parameters.
#[derive(Debug)]
pub struct MintParams {
    /// Identifier of the token to mint.
    pub token_id: Vec<u8>,
    /// Domain name carried by the token.
    pub domain: Vec<u8>,
    /// The account address of the requested owner.
    pub owner: Address,
    /// Initial subscription duration of the domain.
    pub duration: u64,
}

/// The stored ownership and timing data for one minted name.
#[derive(Debug)]
pub struct TokenData {
    /// The account address of the owner.
    pub owner: Address,
    /// The expiry timestamp.
    pub expiry: u64,
    /// The grace duration granted after expiry.
    pub grace: u64,
    /// The domain name.
    pub domain: Vec<u8>,
    /// Fee percentage fixed at mint time.
    pub royalty: u128,
}

/// Mathematical value of a [`TokenData`].
pub ghost struct TokenDataView {
    pub owner: Address,
    pub expiry: u64,
    pub grace: u64,
    pub domain: Seq<u8>,
    pub royalty: u128,
}

impl View for TokenData {
    type V = TokenDataView;

    open spec fn view(&self) -> TokenDataView {
        TokenDataView {
            owner: self.owner,
            expiry: self.expiry,
            grace: self.grace,
            domain: self.domain@,
            royalty: self.royalty,
        }
    }
}

impl TokenData {
    /// Builds a record from its parts.
    pub fn new(owner: Address, expiry: u64, grace: u64, domain: Vec<u8>, royalty: u128) -> (r:
        Self)
        ensures
            r@ == (TokenDataView { owner, expiry, grace, domain: domain@, royalty }),
    {
        Self { owner, expiry, grace, domain, royalty }
    }
}

/// One entry of a transfer batch.
#[derive(Debug)]
pub struct Transfer {
    /// The identifier of the token being transferred.
    pub token_id: Vec<u8>,
    /// The amount of tokens being transferred.
    pub amount: u64,
    /// The address owning the token being transferred.
    pub from: Address,
    /// The address receiving the token being transferred.
    pub to: Address,
    /// Additional data to include in the transfer.
    pub data: Vec<u8>,
}

/// Mathematical value of a [`Transfer`].
pub ghost struct TransferView {
    pub token_id: Seq<u8>,
    pub amount: u64,
    pub from: Address,
    pub to: Address,
    pub data: Seq<u8>,
}

impl View for Transfer {
    type V = TransferView;

    open spec fn view(&self) -> TransferView {
        TransferView {
            token_id: self.token_id@,
            amount: self.amount,
            from: self.from,
            to: self.to,
            data: self.data@,
        }
    }
}

/// The timing slice of a token record, from which the subscription
/// status is derived.
#[derive(Clone, Copy, Debug, PartialEq, Eq, Structural)]
pub struct SubscriptionData {
    pub owner: Address,
    pub expiry: u64,
    pub grace: u64,
}

/// Where a record stands relative to its expiry, never persisted:
/// always recomputed from the record and the current time.
#[derive(Clone, Copy, Debug, PartialEq, Eq, Structural)]
pub enum SubscriptionExpiryStatus {
    /// Actively owned until the carried expiry timestamp.
    Owned(u64),
    /// Expired but within grace, which lasts until the carried timestamp.
    Grace(u64),
    /// Both expiry and grace have elapsed.
    Expired,
}

/// The derived status of one token, together with its owner.
#[derive(Clone, Copy, Debug, PartialEq, Eq, Structural)]
pub struct TokenSubscriptionStatus {
    pub owner: Address,
    pub status: SubscriptionExpiryStatus,
}

/// The public slice of a token record: its domain name and royalty.
#[derive(Debug)]
pub struct TokenInfo {
    pub domain: Vec<u8>,
    pub royalty: u128,
}

/// The subscription status of a record with the given `expiry` and
/// `grace` at time `now`: owned until expiry, in grace until
/// `expiry + grace`, expired afterwards.
pub open spec fn spec_status(expiry: u64, grace: u64, now: u64) -> SubscriptionExpiryStatus {
    if now <= expiry {
        SubscriptionExpiryStatus::Owned(expiry)
    } else if now <= expiry + grace {
        SubscriptionExpiryStatus::Grace((expiry + grace) as u64)
    } else {
        SubscriptionExpiryStatus::Expired
    }
}

impl SubscriptionData {
    /// Derives the subscription status at time `slot_time`.
    pub fn into_status(self, slot_time: u64) -> (r: TokenSubscriptionStatus)
        requires
            self.expiry + self.grace <= u64::MAX,
        ensures
            r.owner == self.owner,
            r.status == spec_status(self.expiry, self.grace, slot_time),
    {
        let grace_period = self.expiry + self.grace;

        let status = if self.expiry >= slot_time {
            SubscriptionExpiryStatus::Owned(self.expiry)
        } else if grace_period >= slot_time {
            SubscriptionExpiryStatus::Grace(grace_period)
        } else {
            SubscriptionExpiryStatus::Expired
        };

        TokenSubscriptionStatus { owner: self.owner, status }
    }
}

/// For a record with expiry `expiry` and grace `grace`, the status is
/// `Owned(expiry)` up to and including the expiry, `Grace(expiry + grace)`
/// strictly after expiry and up to and including the end of grace, and
/// `Expired` strictly after that.
pub proof fn lemma_expiry_transition(expiry: u64, grace: u64, now: u64)
    requires
        expiry + grace <= u64::MAX,
    ensures
        now <= expiry ==> spec_status(expiry, grace, now) == SubscriptionExpiryStatus::Owned(
            expiry,
        ),
        expiry < now <= expiry + grace ==> spec_status(expiry, grace, now)
            == SubscriptionExpiryStatus::Grace((expiry + grace) as u64),
        now > expiry + grace ==> spec_status(expiry, grace, now)
            == SubscriptionExpiryStatus::Expired,
{
}

} // verus!
