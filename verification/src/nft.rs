//! The token lifecycle manager: minting, burning and batch transfer of
//! token records, the derived subscription status, the maintainer-gated
//! configuration update, and the owner-gated royalty claim request.

use vstd::pervasive::VecAdditionalExecFns;
use vstd::prelude::*;

use crate::authority::{spec_update_authority, Authority};
use crate::details::{
    clone_bytes, clone_entries, details_map, find_token, lemma_details_map_contains,
    lemma_details_map_push, lemma_details_map_remove, lemma_details_map_update,
    lemma_details_map_value, unique_ids, TokenEntry,
};
use crate::structs::{
    spec_status, AuthorityUpdateParams, MintParams, State, SubscriptionData, TokenData,
    TokenDataView, TokenInfo, TokenSubscriptionStatus, Transfer, TransferView,
    UpdateInternalValueParams,
};
use crate::{Address, ContractError};

verus! {

broadcast use vstd::set::group_set_axioms, vstd::map::group_map_axioms;

/// True for the characters a token ticker may hold: uppercase letters
/// and digits.
pub open spec fn is_ticker_char(c: u8) -> bool {
    (65 <= c && c <= 90) || (48 <= c && c <= 57)
}

/// True for the characters of a token identifier's random suffix:
/// lowercase letters and digits.
pub open spec fn is_random_char(c: u8) -> bool {
    (97 <= c && c <= 122) || (48 <= c && c <= 57)
}

/// A well-formed fungible-token identifier: a ticker of 3 to 10
/// uppercase alphanumeric characters, a dash, and 6 lowercase
/// alphanumeric characters.
pub open spec fn valid_esdt_token_id(s: Seq<u8>) -> bool {
    &&& 10 <= s.len() <= 17
    &&& (forall|i: int| 0 <= i < s.len() - 7 ==> is_ticker_char(s[i]))
    &&& s[s.len() - 7] == 45u8
    &&& (forall|i: int| s.len() - 6 <= i < s.len() ==> is_random_char(s[i]))
}

/// Checks a token identifier for well-formedness.
pub fn is_valid_esdt_identifier(token_id: &Vec<u8>) -> (r: bool)
    ensures
        r == valid_esdt_token_id(token_id@),
{
    let n = token_id.len();
    if n < 10 || n > 17 {
        return false;
    }
    let ticker_len = n - 7;
    let mut i: usize = 0;
    while i < ticker_len
        invariant
            n == token_id@.len(),
            10 <= n <= 17,
            ticker_len == n - 7,
            i <= ticker_len,
            forall|j: int| 0 <= j < i ==> is_ticker_char(token_id@[j]),
        decreases ticker_len - i,
    {
        let c = token_id[i];
        if !((65 <= c && c <= 90) || (48 <= c && c <= 57)) {
            assert(!is_ticker_char(token_id@[i as int]));
            return false;
        }
        i += 1;
    }
    if token_id[ticker_len] != 45u8 {
        return false;
    }
    let mut j: usize = n - 6;
    while j < n
        invariant
            n == token_id@.len(),
            10 <= n <= 17,
            n - 6 <= j <= n,
            forall|k: int| n - 6 <= k < j ==> is_random_char(token_id@[k]),
        decreases n - j,
    {
        let c = token_id[j];
        if !((97 <= c && c <= 122) || (48 <= c && c <= 57)) {
            assert(!is_random_char(token_id@[j as int]));
            return false;
        }
        j += 1;
    }
    true
}

/// True when the optional payment token is acceptable: absent means the
/// native coin (always valid); present means a well-formed identifier.
pub open spec fn payment_token_valid(opt_token: Option<Vec<u8>>) -> bool {
    match opt_token {
        None => true,
        Some(t) => valid_esdt_token_id(t@),
    }
}

/// The nonce used for the payment step: zero for the native coin, else
/// the given nonce, defaulting to zero.
pub open spec fn spec_payment_nonce(opt_token: Option<Vec<u8>>, opt_nonce: Option<u64>) -> u64 {
    match opt_token {
        None => 0,
        Some(_) => match opt_nonce {
            Some(n) => n,
            None => 0,
        },
    }
}

/// What a successful mint hands back to the boundary that performs the
/// payment and the host-side token creation.
#[derive(Debug)]
pub struct MintReceipt {
    /// The expiry timestamp stored in the new record.
    pub expiry: u64,
    /// The royalty copied from the global configuration at mint time.
    pub royalty: u128,
    /// The nonce resolved for the payment token.
    pub payment_nonce: u64,
}

/// One transfer notification, in batch order.
#[derive(Debug)]
pub struct TransferEvent {
    pub token_id: Vec<u8>,
    pub from: Address,
    pub to: Address,
    pub amount: u64,
}

/// Mathematical value of a [`TransferEvent`].
pub ghost struct TransferEventView {
    pub token_id: Seq<u8>,
    pub from: Address,
    pub to: Address,
    pub amount: u64,
}

impl View for TransferEvent {
    type V = TransferEventView;

    open spec fn view(&self) -> TransferEventView {
        TransferEventView {
            token_id: self.token_id@,
            from: self.from,
            to: self.to,
            amount: self.amount,
        }
    }
}

/// The values of a sequence of transfer notifications.
pub open spec fn events_view(s: Seq<TransferEvent>) -> Seq<TransferEventView> {
    s.map_values(|e: TransferEvent| e@)
}

/// The values of a transfer batch.
pub open spec fn transfers_view(s: Seq<Transfer>) -> Seq<TransferView> {
    s.map_values(|t: Transfer| t@)
}

/// The one-way asynchronous request that a royalty claim issues to the
/// external marketplace; the host sends it and ends the request there.
#[derive(Debug)]
pub struct ClaimRequest {
    pub marketplace_address: Address,
    pub token_id: Vec<u8>,
    pub token_nonce: u64,
    pub claim_destination: Address,
}

/// What a transfer batch leaves behind, processed strictly in order:
/// each entry must name a live record owned by its `from` and by the
/// caller; an entry of amount zero is skipped without effect or
/// notification; an amount other than one rejects the whole batch; a
/// record may move only once both its expiry and its grace-extended
/// expiry have passed. On success the new record map is returned with
/// the notifications in order; on any failure nothing changes.
pub open spec fn spec_transfer(
    details: Map<Seq<u8>, TokenDataView>,
    caller: Address,
    now: u64,
    transfers: Seq<TransferView>,
) -> Result<(Map<Seq<u8>, TokenDataView>, Seq<TransferEventView>), ContractError>
    decreases transfers.len(),
{
    if transfers.len() == 0 {
        Ok((details, Seq::empty()))
    } else {
        let t = transfers[0];
        if !details.contains_key(t.token_id) {
            Err(ContractError::NotFound)
        } else {
            let d = details[t.token_id];
            if !(d.owner == t.from && d.owner == caller) {
                Err(ContractError::NotOwner)
            } else if t.amount == 0 {
                spec_transfer(details, caller, now, transfers.drop_first())
            } else if t.amount != 1 {
                Err(ContractError::InvalidAmount)
            } else if d.expiry + d.grace > u64::MAX {
                Err(ContractError::DurationOverflow)
            } else if !(now >= d.expiry + d.grace && now >= d.expiry) {
                Err(ContractError::GracePeriodActive)
            } else {
                let ev = TransferEventView {
                    token_id: t.token_id,
                    from: t.from,
                    to: t.to,
                    amount: t.amount,
                };
                let moved = TokenDataView { owner: t.to, ..d };
                match spec_transfer(
                    details.insert(t.token_id, moved),
                    caller,
                    now,
                    transfers.drop_first(),
                ) {
                    Ok((m, evs)) => Ok((m, seq![ev] + evs)),
                    Err(e) => Err(e),
                }
            }
        }
    }
}

/// Skip law: a batch entry of amount zero that names a live record
/// owned by its `from` and by the caller produces no ownership change
/// and no notification — the batch resolves exactly as it would without
/// that entry.
pub proof fn lemma_transfer_skip_entry(
    details: Map<Seq<u8>, TokenDataView>,
    caller: Address,
    now: u64,
    t: TransferView,
    rest: Seq<TransferView>,
)
    requires
        t.amount == 0,
        details.contains_key(t.token_id),
        details[t.token_id].owner == t.from,
        details[t.token_id].owner == caller,
    ensures
        spec_transfer(details, caller, now, seq![t] + rest) == spec_transfer(
            details,
            caller,
            now,
            rest,
        ),
{
    assert((seq![t] + rest)[0] == t);
    assert((seq![t] + rest).drop_first() =~= rest);
}

/// The token registry itself: the record store, the global
/// configuration, the authority registry, and the single contract
/// owner fixed at deployment.
pub struct NftMinter {
    token_details: Vec<TokenEntry>,
    state: State,
    authority: Authority,
    contract_owner: Address,
}

impl NftMinter {
    /// The map from token identifier to live record.
    pub closed spec fn details(self) -> Map<Seq<u8>, TokenDataView> {
        details_map(self.token_details@)
    }

    /// The global configuration.
    pub closed spec fn spec_state(self) -> State {
        self.state
    }

    /// The set of admin addresses.
    pub closed spec fn admins(self) -> Set<Address> {
        self.authority.admins()
    }

    /// The set of maintainer addresses.
    pub closed spec fn maintainers(self) -> Set<Address> {
        self.authority.maintainers()
    }

    /// The contract owner fixed at deployment.
    pub closed spec fn owner(self) -> Address {
        self.contract_owner
    }

    /// Internal well-formedness: the record store is duplicate-free and
    /// the authority registry is well-formed.
    pub closed spec fn wf(self) -> bool {
        unique_ids(self.token_details@) && self.authority.wf()
    }

    /// A fresh registry: the given configuration, no records, and the
    /// deploying caller as contract owner and sole admin.
    pub fn init(params: State, caller: Address) -> (r: Self)
        ensures
            r.wf(),
            r.spec_state() == params,
            r.details() == Map::<Seq<u8>, TokenDataView>::empty(),
            r.admins() == Set::empty().insert(caller),
            r.maintainers() == Set::<Address>::empty(),
            r.owner() == caller,
    {
        NftMinter {
            token_details: Vec::new(),
            state: params,
            authority: Authority::new(caller),
            contract_owner: caller,
        }
    }

    /// The current global configuration.
    pub fn state(&self) -> (r: State)
        ensures
            r == self.spec_state(),
    {
        self.state
    }

    /// True when `address` holds maintainer rights.
    pub fn has_maintainer_rights(&self, address: &Address) -> (r: bool)
        ensures
            r == (self.maintainers().contains(*address) || self.admins().contains(*address)),
    {
        self.authority.has_maintainer_rights(address)
    }

    /// True when `address` holds admin rights.
    pub fn has_admin_rights(&self, address: &Address) -> (r: bool)
        ensures
            r == self.admins().contains(*address),
    {
        self.authority.has_admin_rights(address)
    }

    /// Manages the authority sets, exactly as
    /// [`spec_update_authority`] says; records, configuration and
    /// contract owner are untouched.
    pub fn update_authority(&mut self, caller: Address, update_params: AuthorityUpdateParams) -> (r:
        Result<(), ContractError>)
        requires
            old(self).wf(),
        ensures
            final(self).wf(),
            final(self).details() == old(self).details(),
            final(self).spec_state() == old(self).spec_state(),
            final(self).owner() == old(self).owner(),
            match spec_update_authority(
                old(self).admins(),
                old(self).maintainers(),
                caller,
                update_params,
            ) {
                Ok((admins, maintainers)) => r == Ok::<(), ContractError>(()) && final(self).admins()
                    == admins && final(self).maintainers() == maintainers,
                Err(e) => r == Err::<(), ContractError>(e) && final(self).admins() == old(self).admins() && final(self).maintainers() == old(self).maintainers(),
            },
    {
        self.authority.update_authority(caller, update_params)
    }

    /// Updates exactly one field of the global configuration: the
    /// royalty rate or the beneficiary. Rejected with
    /// [`ContractError::Unauthorized`], changing nothing, unless the
    /// caller holds maintainer rights.
    pub fn update_internal_value(
        &mut self,
        caller: Address,
        update_params: UpdateInternalValueParams,
    ) -> (r: Result<(), ContractError>)
        requires
            old(self).wf(),
        ensures
            final(self).wf(),
            final(self).details() == old(self).details(),
            final(self).admins() == old(self).admins(),
            final(self).maintainers() == old(self).maintainers(),
            final(self).owner() == old(self).owner(),
            if !(old(self).maintainers().contains(caller) || old(self).admins().contains(caller)) {
                r == Err::<(), ContractError>(ContractError::Unauthorized) && final(self).spec_state() == old(self).spec_state()
            } else {
                r == Ok::<(), ContractError>(()) && final(self).spec_state() == match update_params {
                    UpdateInternalValueParams::Royalty(percentage) => State {
                        royalty: percentage,
                        ..old(self).spec_state()
                    },
                    UpdateInternalValueParams::Beneficiary(account) => State {
                        benificiary: account,
                        ..old(self).spec_state()
                    },
                }
            },
    {
        if !self.has_maintainer_rights(&caller) {
            return Err(ContractError::Unauthorized);
        }
        match update_params {
            UpdateInternalValueParams::Royalty(percentage) => {
                self.state.royalty = percentage;
            },
            UpdateInternalValueParams::Beneficiary(account) => {
                self.state.benificiary = account;
            },
        }
        Ok(())
    }

    /// Owner-gated royalty claim: builds the one-way request that the
    /// host sends to the marketplace, directing the funds to the
    /// caller. Rejected unless the caller is the contract owner.
    pub fn claim_royalties_from_marketplace(
        &self,
        caller: Address,
        marketplace_address: Address,
        token_id: Vec<u8>,
        token_nonce: u64,
    ) -> (r: Result<ClaimRequest, ContractError>)
        ensures
            match r {
                Ok(req) => caller == self.owner() && req.marketplace_address == marketplace_address
                    && req.token_id@ == token_id@ && req.token_nonce == token_nonce
                    && req.claim_destination == caller,
                Err(e) => caller != self.owner() && e == ContractError::Unauthorized,
            },
    {
        if caller != self.contract_owner {
            return Err(ContractError::Unauthorized);
        }
        Ok(ClaimRequest { marketplace_address, token_id, token_nonce, claim_destination: caller })
    }

    /// The domain name and royalty of the record under `token_id`, if
    /// one is live. A pure read.
    pub fn get_token_info(&self, token_id: &Vec<u8>) -> (r: Option<TokenInfo>)
        requires
            self.wf(),
        ensures
            match r {
                Some(info) => self.details().contains_key(token_id@) && info.domain@
                    == self.details()[token_id@].domain && info.royalty
                    == self.details()[token_id@].royalty,
                None => !self.details().contains_key(token_id@),
            },
    {
        match find_token(&self.token_details, token_id) {
            Some(i) => {
                proof {
                    lemma_details_map_value(self.token_details@, i as int);
                }
                let data = &self.token_details[i].data;
                Some(TokenInfo { domain: clone_bytes(&data.domain), royalty: data.royalty })
            },
            None => None,
        }
    }

    /// The subscription status of the record under `token_id` at time
    /// `slot_time`: absent if no record is live, rejected with
    /// [`ContractError::DurationOverflow`] if the record's grace-extended
    /// expiry does not fit the timestamp representation, else the status
    /// derived from the record and the time. A pure read.
    pub fn get_token_subscription_status(&self, slot_time: u64, token_id: &Vec<u8>) -> (r: Result<
        Option<TokenSubscriptionStatus>,
        ContractError,
    >)
        requires
            self.wf(),
        ensures
            ({
                let m = self.details();
                match r {
                    Ok(opt) => match opt {
                        Some(st) => m.contains_key(token_id@) && m[token_id@].expiry
                            + m[token_id@].grace <= u64::MAX && st.owner == m[token_id@].owner
                            && st.status == spec_status(
                            m[token_id@].expiry,
                            m[token_id@].grace,
                            slot_time,
                        ),
                        None => !m.contains_key(token_id@),
                    },
                    Err(e) => m.contains_key(token_id@) && m[token_id@].expiry + m[token_id@].grace
                        > u64::MAX && e == ContractError::DurationOverflow,
                }
            }),
    {
        match find_token(&self.token_details, token_id) {
            Some(i) => {
                proof {
                    lemma_details_map_value(self.token_details@, i as int);
                }
                let data = &self.token_details[i].data;
                if data.grace > u64::MAX - data.expiry {
                    return Err(ContractError::DurationOverflow);
                }
                let sub = SubscriptionData {
                    owner: data.owner,
                    expiry: data.expiry,
                    grace: data.grace,
                };
                Ok(Some(sub.into_status(slot_time)))
            },
            None => Ok(None),
        }
    }

    /// Mints a new record. The payment token must be well-formed, the
    /// expiry `slot_time + duration` must fit the timestamp
    /// representation, and no live record may sit under the identifier;
    /// each violation is rejected in that order, changing nothing. On
    /// success the record is inserted — owned by the caller, with grace
    /// and royalty copied from the configuration at call time — and the
    /// receipt for the boundary payment step is returned.
    pub fn create_nft(
        &mut self,
        caller: Address,
        slot_time: u64,
        opt_token_used_as_payment: Option<Vec<u8>>,
        opt_token_used_as_payment_nonce: Option<u64>,
        params: MintParams,
    ) -> (r: Result<MintReceipt, ContractError>)
        requires
            old(self).wf(),
        ensures
            final(self).wf(),
            final(self).spec_state() == old(self).spec_state(),
            final(self).admins() == old(self).admins(),
            final(self).maintainers() == old(self).maintainers(),
            final(self).owner() == old(self).owner(),
            ({
                let valid = payment_token_valid(opt_token_used_as_payment);
                let fits = slot_time + params.duration <= u64::MAX;
                let fresh = !old(self).details().contains_key(params.token_id@);
                match r {
                    Ok(receipt) => valid && fits && fresh && final(self).details() == old(self).details().insert(
                        params.token_id@,
                        TokenDataView {
                            owner: caller,
                            expiry: (slot_time + params.duration) as u64,
                            grace: old(self).spec_state().grace,
                            domain: params.domain@,
                            royalty: old(self).spec_state().royalty,
                        },
                    ) && receipt.expiry == (slot_time + params.duration) as u64 && receipt.royalty
                        == old(self).spec_state().royalty && receipt.payment_nonce
                        == spec_payment_nonce(
                        opt_token_used_as_payment,
                        opt_token_used_as_payment_nonce,
                    ),
                    Err(e) => final(self).details() == old(self).details() && (if !valid {
                        e == ContractError::InvalidToken
                    } else if !fits {
                        e == ContractError::DurationOverflow
                    } else {
                        !fresh && e == ContractError::AlreadyExists
                    }),
                }
            }),
    {
        let valid = match &opt_token_used_as_payment {
            Some(token) => is_valid_esdt_identifier(token),
            None => true,
        };
        if !valid {
            return Err(ContractError::InvalidToken);
        }
        let payment_nonce: u64 = match &opt_token_used_as_payment {
            None => 0,
            Some(_) => match opt_token_used_as_payment_nonce {
                Some(nonce) => nonce,
                None => 0,
            },
        };
        if params.duration > u64::MAX - slot_time {
            return Err(ContractError::DurationOverflow);
        }
        let expiry = slot_time + params.duration;
        match find_token(&self.token_details, &params.token_id) {
            Some(i) => {
                proof {
                    lemma_details_map_contains(self.token_details@, params.token_id@);
                }
                Err(ContractError::AlreadyExists)
            },
            None => {
                let ghost before = self.token_details@;
                let royalty = self.state.royalty;
                let entry = TokenEntry {
                    token_id: params.token_id,
                    data: TokenData::new(caller, expiry, self.state.grace, params.domain, royalty),
                };
                self.token_details.push(entry);
                proof {
                    lemma_details_map_push(before, entry);
                    lemma_details_map_contains(before, entry.token_id@);
                    assert forall|i: int, j: int|
                        0 <= i < j < self.token_details@.len() implies self.token_details@[i].token_id@
                        != self.token_details@[j].token_id@ by {
                        if j == self.token_details@.len() - 1 {
                            assert(before[i].token_id@ != entry.token_id@);
                        } else {
                            assert(before[i] == self.token_details@[i]);
                            assert(before[j] == self.token_details@[j]);
                        }
                    }
                }
                Ok(MintReceipt { expiry, royalty, payment_nonce })
            },
        }
    }

    /// Burns the record under `token_id`: rejected with
    /// [`ContractError::NotFound`] if no record is live, with
    /// [`ContractError::DurationOverflow`] if its grace-extended expiry
    /// does not fit the timestamp representation, and with
    /// [`ContractError::GracePeriodActive`] before both expiry and grace
    /// have elapsed; each rejection changes nothing. On success the
    /// record is removed permanently and handed back for the burn
    /// notification.
    pub fn burn(&mut self, slot_time: u64, token_id: &Vec<u8>) -> (r: Result<
        TokenData,
        ContractError,
    >)
        requires
            old(self).wf(),
        ensures
            final(self).wf(),
            final(self).spec_state() == old(self).spec_state(),
            final(self).admins() == old(self).admins(),
            final(self).maintainers() == old(self).maintainers(),
            final(self).owner() == old(self).owner(),
            ({
                let m = old(self).details();
                match r {
                    Ok(data) => m.contains_key(token_id@) && m[token_id@].expiry
                        + m[token_id@].grace <= u64::MAX && slot_time >= m[token_id@].expiry
                        + m[token_id@].grace && data@ == m[token_id@] && final(self).details()
                        == m.remove(token_id@),
                    Err(e) => final(self).details() == m && (if !m.contains_key(token_id@) {
                        e == ContractError::NotFound
                    } else if m[token_id@].expiry + m[token_id@].grace > u64::MAX {
                        e == ContractError::DurationOverflow
                    } else {
                        slot_time < m[token_id@].expiry + m[token_id@].grace && e
                            == ContractError::GracePeriodActive
                    }),
                }
            }),
    {
        match find_token(&self.token_details, token_id) {
            None => Err(ContractError::NotFound),
            Some(i) => {
                proof {
                    lemma_details_map_value(self.token_details@, i as int);
                }
                let expiry = self.token_details[i].data.expiry;
                let grace = self.token_details[i].data.grace;
                if grace > u64::MAX - expiry {
                    return Err(ContractError::DurationOverflow);
                }
                if slot_time < expiry + grace {
                    return Err(ContractError::GracePeriodActive);
                }
                let ghost before = self.token_details@;
                let entry = self.token_details.remove(i);
                proof {
                    lemma_details_map_remove(before, i as int);
                }
                Ok(entry.data)
            },
        }
    }

    /// Executes a batch of transfers strictly in list order, exactly as
    /// [`spec_transfer`] says. The batch is all-or-nothing: on any
    /// rejection every earlier entry's effect is discarded and the
    /// registry is left exactly as it was; on success the notifications
    /// are returned in batch order.
    pub fn transfer(&mut self, caller: Address, slot_time: u64, transfers: Vec<Transfer>) -> (r:
        Result<Vec<TransferEvent>, ContractError>)
        requires
            old(self).wf(),
        ensures
            final(self).wf(),
            final(self).spec_state() == old(self).spec_state(),
            final(self).admins() == old(self).admins(),
            final(self).maintainers() == old(self).maintainers(),
            final(self).owner() == old(self).owner(),
            match r {
                Ok(events) => spec_transfer(
                    old(self).details(),
                    caller,
                    slot_time,
                    transfers_view(transfers@),
                ) == Ok::<_, ContractError>((final(self).details(), events_view(events@))),
                Err(e) => spec_transfer(
                    old(self).details(),
                    caller,
                    slot_time,
                    transfers_view(transfers@),
                ) == Err::<(Map<Seq<u8>, TokenDataView>, Seq<TransferEventView>), ContractError>(e)
                    && *final(self) == *old(self),
            },
    {
        let ghost tviews = transfers_view(transfers@);
        let mut scratch = clone_entries(&self.token_details);
        let mut events: Vec<TransferEvent> = Vec::new();
        let mut idx: usize = 0;
        proof {
            assert(tviews.skip(0) =~= tviews);
            assert(events_view(events@) =~= Seq::<TransferEventView>::empty());
            match spec_transfer(details_map(scratch@), caller, slot_time, tviews) {
                Ok((m, evs)) => {
                    assert(events_view(events@) + evs =~= evs);
                },
                Err(_) => {},
            }
        }
        while idx < transfers.len()
            invariant
                idx <= transfers@.len(),
                tviews == transfers_view(transfers@),
                tviews.len() == transfers@.len(),
                unique_ids(scratch@),
                old(self).wf(),
                *self == *old(self),
                match spec_transfer(details_map(scratch@), caller, slot_time, tviews.skip(idx as int)) {
                    Ok((m, evs)) => spec_transfer(old(self).details(), caller, slot_time, tviews)
                        == Ok::<_, ContractError>((m, events_view(events@) + evs)),
                    Err(e) => spec_transfer(old(self).details(), caller, slot_time, tviews) == Err::<
                        (Map<Seq<u8>, TokenDataView>, Seq<TransferEventView>),
                        ContractError,
                    >(e),
                },
            decreases transfers@.len() - idx,
        {
            let ghost cur = details_map(scratch@);
            let ghost rest = tviews.skip(idx as int);
            proof {
                assert(rest.len() == tviews.len() - idx);
                assert(tviews[idx as int] == transfers@[idx as int]@);
                assert(rest[0] == tviews[idx as int]);
                assert(rest.drop_first() =~= tviews.skip(idx as int + 1));
            }
            let t = &transfers[idx];
            match find_token(&scratch, &t.token_id) {
                None => {
                    return Err(ContractError::NotFound);
                },
                Some(i) => {
                    proof {
                        lemma_details_map_value(scratch@, i as int);
                        assert(cur[rest[0].token_id] == scratch@[i as int].data@);
                    }
                    let data_owner = scratch[i].data.owner;
                    if !(data_owner == t.from && data_owner == caller) {
                        return Err(ContractError::NotOwner);
                    }
                    if t.amount == 0 {
                        idx += 1;
                        continue ;
                    }
                    if t.amount != 1 {
                        return Err(ContractError::InvalidAmount);
                    }
                    let expiry = scratch[i].data.expiry;
                    let grace = scratch[i].data.grace;
                    if grace > u64::MAX - expiry {
                        return Err(ContractError::DurationOverflow);
                    }
                    if !(slot_time >= expiry + grace && slot_time >= expiry) {
                        return Err(ContractError::GracePeriodActive);
                    }
                    let ev = TransferEvent {
                        token_id: clone_bytes(&t.token_id),
                        from: t.from,
                        to: t.to,
                        amount: t.amount,
                    };
                    let ghost ev_view = ev@;
                    let ghost events_before = events@;
                    events.push(ev);
                    let new_entry = TokenEntry {
                        token_id: clone_bytes(&scratch[i].token_id),
                        data: TokenData {
                            owner: t.to,
                            expiry,
                            grace,
                            domain: clone_bytes(&scratch[i].data.domain),
                            royalty: scratch[i].data.royalty,
                        },
                    };
                    let ghost scratch_before = scratch@;
                    scratch.set(i, new_entry);
                    proof {
                        lemma_details_map_update(scratch_before, i as int, new_entry);
                        let d = cur[rest[0].token_id];
                        assert(new_entry.data@ == (TokenDataView { owner: rest[0].to, ..d }));
                        assert(details_map(scratch@) == cur.insert(
                            rest[0].token_id,
                            TokenDataView { owner: rest[0].to, ..d },
                        ));
                        assert(events_view(events@) =~= events_view(events_before).push(ev_view));
                        let spec_ev = TransferEventView {
                            token_id: rest[0].token_id,
                            from: rest[0].from,
                            to: rest[0].to,
                            amount: rest[0].amount,
                        };
                        assert(ev_view == spec_ev);
                        match spec_transfer(
                            details_map(scratch@),
                            caller,
                            slot_time,
                            tviews.skip(idx as int + 1),
                        ) {
                            Ok((m, evs)) => {
                                assert(spec_transfer(cur, caller, slot_time, rest) == Ok::<
                                    _,
                                    ContractError,
                                >((m, seq![spec_ev] + evs)));
                                assert(events_view(events_before) + (seq![spec_ev] + evs)
                                    =~= events_view(events@) + evs);
                            },
                            Err(e) => {
                                assert(spec_transfer(cur, caller, slot_time, rest) == Err::<
                                    (Map<Seq<u8>, TokenDataView>, Seq<TransferEventView>),
                                    ContractError,
                                >(e));
                            },
                        }
                    }
                    idx += 1;
                },
            }
        }
        proof {
            assert(tviews.skip(idx as int).len() == 0);
            assert(events_view(events@) + Seq::<TransferEventView>::empty() =~= events_view(
                events@,
            ));
        }
        self.token_details = scratch;
        Ok(events)
    }
}

} // verus!
