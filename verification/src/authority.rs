//! The two-tier authority model: a set of admins and a set of
//! maintainers, with capability checks and the role-gated update
//! operation that grows or shrinks either set.

use vstd::prelude::*;

use crate::structs::{AuthorityField, AuthorityUpdateParams, UpdateKind};
use crate::{Address, ContractError};

verus! {

broadcast use vstd::set::group_set_axioms;

/// True when `v` holds the address `a`.
pub(crate) fn addr_vec_contains(v: &Vec<Address>, a: Address) -> (r: bool)
    ensures
        r == v@.contains(a),
{
    let mut i: usize = 0;
    while i < v.len()
        invariant
            i <= v@.len(),
            forall|j: int| 0 <= j < i ==> v@[j] != a,
        decreases v@.len() - i,
    {
        if v[i] == a {
            assert(v@[i as int] == a);
            return true;
        }
        i += 1;
    }
    false
}

/// Membership in a sequence extended by one element.
proof fn lemma_seq_push_contains(s: Seq<Address>, a: Address, x: Address)
    ensures
        s.push(a).contains(x) <==> (s.contains(x) || x == a),
{
    let t = s.push(a);
    if t.contains(x) {
        let j = choose|j: int| 0 <= j < t.len() && t[j] == x;
        if j < s.len() {
            assert(s[j] == x);
        } else {
            assert(t[s.len() as int] == a);
        }
    }
    if s.contains(x) {
        let j = choose|j: int| 0 <= j < s.len() && s[j] == x;
        assert(t[j] == x);
    }
    if x == a {
        assert(t[s.len() as int] == x);
    }
}

/// Membership in a duplicate-free sequence with the element at `i`
/// taken out.
proof fn lemma_seq_remove_contains(s: Seq<Address>, i: int, x: Address)
    requires
        0 <= i < s.len(),
        s.no_duplicates(),
    ensures
        s.remove(i).contains(x) <==> (s.contains(x) && x != s[i]),
{
    s.remove_ensures(i);
    let t = s.remove(i);
    if t.contains(x) {
        let j = choose|j: int| 0 <= j < t.len() && t[j] == x;
        if j < i {
            assert(s[j] == x);
            assert(s[j] != s[i]);
        } else {
            assert(t[j] == s[j + 1]);
            assert(s[j + 1] == x);
            assert(s[j + 1] != s[i]);
        }
    }
    if s.contains(x) && x != s[i] {
        let j = choose|j: int| 0 <= j < s.len() && s[j] == x;
        assert(j != i);
        if j < i {
            assert(t[j] == x);
        } else {
            assert(t[j - 1] == s[j]);
        }
    }
}

/// Taking one element out of a duplicate-free sequence keeps it
/// duplicate-free.
proof fn lemma_seq_remove_no_dup(s: Seq<Address>, i: int)
    requires
        0 <= i < s.len(),
        s.no_duplicates(),
    ensures
        s.remove(i).no_duplicates(),
{
    s.remove_ensures(i);
    let t = s.remove(i);
    assert forall|j: int, k: int|
        0 <= j < t.len() && 0 <= k < t.len() && j != k implies t[j] != t[k] by {
        let j2: int = if j < i {
            j
        } else {
            j + 1
        };
        let k2: int = if k < i {
            k
        } else {
            k + 1
        };
        assert(t[j] == s[j2]);
        assert(t[k] == s[k2]);
        assert(s[j2] != s[k2]);
    }
}

/// Adds `a` to the duplicate-free vector `v` unless it is already there.
fn addr_vec_insert(v: &mut Vec<Address>, a: Address)
    requires
        old(v)@.no_duplicates(),
    ensures
        final(v)@.no_duplicates(),
        final(v)@.to_set() == old(v)@.to_set().insert(a),
{
    if !addr_vec_contains(v, a) {
        v.push(a);
        proof {
            assert forall|x: Address| v@.contains(x) <==> (old(v)@.contains(x) || x == a) by {
                lemma_seq_push_contains(old(v)@, a, x);
            }
            assert(v@.to_set() =~= old(v)@.to_set().insert(a));
            assert forall|j: int, k: int|
                0 <= j < v@.len() && 0 <= k < v@.len() && j != k implies v@[j] != v@[k] by {
                if k == v@.len() - 1 {
                    assert(old(v)@[j] != a);
                } else if j == v@.len() - 1 {
                    assert(old(v)@[k] != a);
                }
            }
        }
    } else {
        proof {
            assert(v@.to_set() =~= old(v)@.to_set().insert(a));
        }
    }
}

/// Removes `a` from the duplicate-free vector `v` if it is there.
fn addr_vec_remove(v: &mut Vec<Address>, a: Address)
    requires
        old(v)@.no_duplicates(),
    ensures
        final(v)@.no_duplicates(),
        final(v)@.to_set() == old(v)@.to_set().remove(a),
{
    let ghost s = v@;
    let mut i: usize = 0;
    while i < v.len()
        invariant
            i <= v@.len(),
            v@ == s,
            s == old(v)@,
            s.no_duplicates(),
            forall|j: int| 0 <= j < i ==> v@[j] != a,
        decreases v@.len() - i,
    {
        if v[i] == a {
            assert(s[i as int] == a);
            v.remove(i);
            proof {
                assert(v@ == s.remove(i as int));
                assert forall|x: Address| v@.contains(x) <==> (s.contains(x) && x != a) by {
                    lemma_seq_remove_contains(s, i as int, x);
                }
                assert(v@.to_set() =~= s.to_set().remove(a));
                lemma_seq_remove_no_dup(s, i as int);
            }
            return ;
        }
        i += 1;
    }
    proof {
        assert(!s.contains(a));
        assert(v@.to_set() =~= s.to_set().remove(a));
    }
}

/// The authority registry: the admins may edit the admin set, and
/// anyone with maintainer rights (a maintainer or an admin) may edit
/// the maintainer set.
pub struct Authority {
    admins: Vec<Address>,
    maintainers: Vec<Address>,
}

/// What an authority update leaves behind, as a function of the two
/// sets, the caller and the parameters: the caller must already hold
/// the rights matching the targeted set, else the update is rejected
/// with [`ContractError::Unauthorized`] and nothing changes; otherwise
/// the targeted set gains or loses the address (idempotently) and the
/// other set stays as it was.
pub open spec fn spec_update_authority(
    admins: Set<Address>,
    maintainers: Set<Address>,
    caller: Address,
    params: AuthorityUpdateParams,
) -> Result<(Set<Address>, Set<Address>), ContractError> {
    match params.field {
        AuthorityField::Maintainer => {
            if !(maintainers.contains(caller) || admins.contains(caller)) {
                Err(ContractError::Unauthorized)
            } else {
                match params.kind {
                    UpdateKind::Add => Ok((admins, maintainers.insert(params.address))),
                    UpdateKind::Remove => Ok((admins, maintainers.remove(params.address))),
                }
            }
        },
        AuthorityField::Admin => {
            if !admins.contains(caller) {
                Err(ContractError::Unauthorized)
            } else {
                match params.kind {
                    UpdateKind::Add => Ok((admins.insert(params.address), maintainers)),
                    UpdateKind::Remove => Ok((admins.remove(params.address), maintainers)),
                }
            }
        },
    }
}

impl Authority {
    /// The set of admin addresses.
    pub closed spec fn admins(self) -> Set<Address> {
        self.admins@.to_set()
    }

    /// The set of maintainer addresses.
    pub closed spec fn maintainers(self) -> Set<Address> {
        self.maintainers@.to_set()
    }

    /// Internal well-formedness: each backing vector is duplicate-free.
    pub closed spec fn wf(self) -> bool {
        self.admins@.no_duplicates() && self.maintainers@.no_duplicates()
    }

    /// A fresh registry whose only admin is the deploying caller.
    pub fn new(deployer: Address) -> (r: Self)
        ensures
            r.wf(),
            r.admins() == Set::empty().insert(deployer),
            r.maintainers() == Set::<Address>::empty(),
    {
        let mut admins: Vec<Address> = Vec::new();
        admins.push(deployer);
        let r = Authority { admins, maintainers: Vec::new() };
        proof {
            assert(r.admins@[0] == deployer);
            assert(r.admins@.contains(deployer));
            assert(r.admins@.to_set() =~= Set::empty().insert(deployer));
            assert(r.maintainers@.to_set() =~= Set::<Address>::empty());
        }
        r
    }

    /// True when `address` holds maintainer rights: it is a maintainer
    /// or an admin.
    pub fn has_maintainer_rights(&self, address: &Address) -> (r: bool)
        ensures
            r == (self.maintainers().contains(*address) || self.admins().contains(*address)),
    {
        addr_vec_contains(&self.maintainers, *address) || addr_vec_contains(&self.admins, *address)
    }

    /// True when `address` holds admin rights: it is an admin.
    pub fn has_admin_rights(&self, address: &Address) -> (r: bool)
        ensures
            r == self.admins().contains(*address),
    {
        addr_vec_contains(&self.admins, *address)
    }

    /// Manages the addresses that are allowed to maintain and modify
    /// the registry, exactly as [`spec_update_authority`] says.
    ///
    /// It rejects, leaving both sets unchanged, if the caller is
    /// neither one of the admins nor one of the maintainers of the
    /// targeted set's tier.
    pub fn update_authority(&mut self, caller: Address, update_params: AuthorityUpdateParams) -> (r:
        Result<(), ContractError>)
        requires
            old(self).wf(),
        ensures
            final(self).wf(),
            match spec_update_authority(
                old(self).admins(),
                old(self).maintainers(),
                caller,
                update_params,
            ) {
                Ok((admins, maintainers)) => r == Ok::<(), ContractError>(()) && final(self).admins()
                    == admins && final(self).maintainers() == maintainers,
                Err(e) => r == Err::<(), ContractError>(e) && *final(self) == *old(self),
            },
    {
        match update_params.field {
            AuthorityField::Maintainer => {
                if !self.has_maintainer_rights(&caller) {
                    return Err(ContractError::Unauthorized);
                }
                match update_params.kind {
                    UpdateKind::Remove => addr_vec_remove(
                        &mut self.maintainers,
                        update_params.address,
                    ),
                    UpdateKind::Add => addr_vec_insert(&mut self.maintainers, update_params.address),
                }
            },
            AuthorityField::Admin => {
                if !self.has_admin_rights(&caller) {
                    return Err(ContractError::Unauthorized);
                }
                match update_params.kind {
                    UpdateKind::Remove => addr_vec_remove(&mut self.admins, update_params.address),
                    UpdateKind::Add => addr_vec_insert(&mut self.admins, update_params.address),
                }
            },
        }
        Ok(())
    }
}

/// Capability law: a caller that is in neither set cannot run the
/// authority update in any form — it is rejected with
/// [`ContractError::Unauthorized`], and both sets are left unchanged.
pub proof fn lemma_unprivileged_update_rejected(
    admins: Set<Address>,
    maintainers: Set<Address>,
    caller: Address,
    params: AuthorityUpdateParams,
)
    requires
        !admins.contains(caller),
        !maintainers.contains(caller),
    ensures
        spec_update_authority(admins, maintainers, caller, params) == Err::<
            (Set<Address>, Set<Address>),
            ContractError,
        >(ContractError::Unauthorized),
{
}

/// Idempotence law: adding an address already present, or removing one
/// already absent, succeeds and leaves both sets exactly as they were.
pub proof fn lemma_update_authority_idempotent(
    admins: Set<Address>,
    maintainers: Set<Address>,
    caller: Address,
    address: Address,
)
    ensures
        (maintainers.contains(caller) || admins.contains(caller)) && maintainers.contains(address)
            ==> spec_update_authority(
            admins,
            maintainers,
            caller,
            AuthorityUpdateParams { field: AuthorityField::Maintainer, kind: UpdateKind::Add, address },
        ) == Ok::<_, ContractError>((admins, maintainers)),
        (maintainers.contains(caller) || admins.contains(caller)) && !maintainers.contains(address)
            ==> spec_update_authority(
            admins,
            maintainers,
            caller,
            AuthorityUpdateParams {
                field: AuthorityField::Maintainer,
                kind: UpdateKind::Remove,
                address,
            },
        ) == Ok::<_, ContractError>((admins, maintainers)),
        admins.contains(caller) && admins.contains(address) ==> spec_update_authority(
            admins,
            maintainers,
            caller,
            AuthorityUpdateParams { field: AuthorityField::Admin, kind: UpdateKind::Add, address },
        ) == Ok::<_, ContractError>((admins, maintainers)),
        admins.contains(caller) && !admins.contains(address) ==> spec_update_authority(
            admins,
            maintainers,
            caller,
            AuthorityUpdateParams { field: AuthorityField::Admin, kind: UpdateKind::Remove, address },
        ) == Ok::<_, ContractError>((admins, maintainers)),
{
    if maintainers.contains(address) {
        assert(maintainers.insert(address) =~= maintainers);
    } else {
        assert(maintainers.remove(address) =~= maintainers);
    }
    if admins.contains(address) {
        assert(admins.insert(address) =~= admins);
    } else {
        assert(admins.remove(address) =~= admins);
    }
}

} // verus!
