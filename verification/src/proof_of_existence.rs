//! The proof-of-existence pallet: a registry from content key to the
//! account that claimed it. Each content key has at most one owner at any
//! time; only that owner can revoke the claim.

use vstd::prelude::*;
use vstd::hash_map::StringHashMap;
use crate::support::{DispatchError, DispatchResult};

verus! {

/// The owner recorded for `content` in the registry `m`, if any.
pub open spec fn owner_of(m: Map<Seq<char>, Seq<char>>, content: Seq<char>) -> Option<Seq<char>> {
    if m.contains_key(content) {
        Some(m[content])
    } else {
        None
    }
}

/// Whether claiming `content` succeeds on the registry `m`: it fails with
/// `AlreadyClaimed` exactly when the key is already present.
pub open spec fn create_check(m: Map<Seq<char>, Seq<char>>, content: Seq<char>) -> DispatchResult {
    if m.contains_key(content) {
        Err(DispatchError::AlreadyClaimed)
    } else {
        Ok(())
    }
}

/// The registry after `caller` claims `content`; unchanged when the claim
/// fails.
pub open spec fn create_effect(
    m: Map<Seq<char>, Seq<char>>,
    caller: Seq<char>,
    content: Seq<char>,
) -> Map<Seq<char>, Seq<char>> {
    if create_check(m, content) is Ok {
        m.insert(content, caller)
    } else {
        m
    }
}

/// Whether `caller` revoking `content` succeeds on the registry `m`: it
/// fails with `ClaimNotFound` when the key is absent, and with `NotOwner`
/// when the stored owner differs from the caller.
pub open spec fn revoke_check(
    m: Map<Seq<char>, Seq<char>>,
    caller: Seq<char>,
    content: Seq<char>,
) -> DispatchResult {
    if !m.contains_key(content) {
        Err(DispatchError::ClaimNotFound)
    } else if m[content] != caller {
        Err(DispatchError::NotOwner)
    } else {
        Ok(())
    }
}

/// The registry after `caller` revokes `content`; unchanged when the
/// revocation fails.
pub open spec fn revoke_effect(
    m: Map<Seq<char>, Seq<char>>,
    caller: Seq<char>,
    content: Seq<char>,
) -> Map<Seq<char>, Seq<char>> {
    if revoke_check(m, caller, content) is Ok {
        m.remove(content)
    } else {
        m
    }
}

/// The proof-of-existence pallet: lets accounts claim existence of some
/// content. Accounts can make multiple different claims, but each claim
/// has only one owner.
pub struct Pallet {
    claims: StringHashMap<String>,
}

impl View for Pallet {
    type V = Map<Seq<char>, Seq<char>>;

    closed spec fn view(&self) -> Map<Seq<char>, Seq<char>> {
        self.claims@.map_values(|owner: String| owner@)
    }
}

impl Pallet {
    /// Creates a pallet with an empty claim registry.
    pub fn new() -> (result: Self)
        ensures
            result@ == Map::<Seq<char>, Seq<char>>::empty(),
    {
        let pallet = Pallet { claims: StringHashMap::new() };
        proof {
            assert(pallet@ =~= Map::<Seq<char>, Seq<char>>::empty());
        }
        pallet
    }

    /// Returns the owner (if any) of the claim on `content`.
    pub fn get_claim<'a>(&'a self, content: &String) -> (owner: Option<&'a String>)
        ensures
            match owner {
                Some(o) => owner_of(self@, content@) == Some(o@),
                None => owner_of(self@, content@) is None,
            },
    {
        self.claims.get(content.as_str())
    }

    /// Records `caller` as the owner of `content`. Fails with
    /// `AlreadyClaimed`, leaving the registry unchanged, if someone has
    /// already claimed that content.
    pub fn create_claim(&mut self, caller: String, content: String) -> (result: DispatchResult)
        ensures
            result == create_check(old(self)@, content@),
            final(self)@ == create_effect(old(self)@, caller@, content@),
    {
        if self.claims.contains_key(content.as_str()) {
            return Err(DispatchError::AlreadyClaimed);
        }
        self.claims.insert(content, caller);
        proof {
            assert(self@ =~= create_effect(old(self)@, caller@, content@));
        }
        Ok(())
    }

    /// Removes the claim on `content`. Fails with `ClaimNotFound` if no
    /// claim exists, and with `NotOwner` if `caller` is not the recorded
    /// owner; on either failure the registry is unchanged.
    pub fn revoke_claim(&mut self, caller: String, content: String) -> (result: DispatchResult)
        ensures
            result == revoke_check(old(self)@, caller@, content@),
            final(self)@ == revoke_effect(old(self)@, caller@, content@),
    {
        match self.claims.get(content.as_str()) {
            None => {
                return Err(DispatchError::ClaimNotFound);
            },
            Some(owner) => {
                if caller != *owner {
                    return Err(DispatchError::NotOwner);
                }
            },
        }
        self.claims.remove(content.as_str());
        proof {
            assert(self@ =~= revoke_effect(old(self)@, caller@, content@));
        }
        Ok(())
    }
}

/// The calls a block extrinsic can address to this pallet.
#[allow(non_camel_case_types)]
pub enum Call {
    create_claim { claim: String },
    revoke_claim { claim: String },
}

impl Clone for Call {
    fn clone(&self) -> (result: Self)
        ensures
            result == *self,
    {
        match self {
            Call::create_claim { claim } => Call::create_claim { claim: claim.clone() },
            Call::revoke_claim { claim } => Call::revoke_claim { claim: claim.clone() },
        }
    }
}

/// Whether a call to this pallet succeeds on the registry `m`, and with
/// which error it fails otherwise.
pub open spec fn dispatch_check(m: Map<Seq<char>, Seq<char>>, caller: Seq<char>, call: Call)
    -> DispatchResult {
    match call {
        Call::create_claim { claim } => create_check(m, claim@),
        Call::revoke_claim { claim } => revoke_check(m, caller, claim@),
    }
}

/// The registry after a call to this pallet; unchanged when the call fails.
pub open spec fn dispatch_effect(m: Map<Seq<char>, Seq<char>>, caller: Seq<char>, call: Call)
    -> Map<Seq<char>, Seq<char>> {
    match call {
        Call::create_claim { claim } => create_effect(m, caller, claim@),
        Call::revoke_claim { claim } => revoke_effect(m, caller, claim@),
    }
}

impl Pallet {
    /// Routes a call from `caller` to the owning operation of this pallet.
    pub fn dispatch(&mut self, caller: String, call: Call) -> (result: DispatchResult)
        ensures
            result == dispatch_check(old(self)@, caller@, call),
            final(self)@ == dispatch_effect(old(self)@, caller@, call),
    {
        match call {
            Call::create_claim { claim } => self.create_claim(caller, claim),
            Call::revoke_claim { claim } => self.revoke_claim(caller, claim),
        }
    }
}

/// Creating a claim on unclaimed content records the creator: a lookup on
/// the same content afterwards returns the creator as owner.
pub proof fn lemma_create_then_get(
    m: Map<Seq<char>, Seq<char>>,
    caller: Seq<char>,
    content: Seq<char>,
)
    requires
        create_check(m, content) is Ok,
    ensures
        owner_of(create_effect(m, caller, content), content) == Some(caller),
{
}

/// A second claim on already-claimed content fails with `AlreadyClaimed`
/// and leaves the original owner unchanged.
pub proof fn lemma_second_create_fails(
    m: Map<Seq<char>, Seq<char>>,
    caller: Seq<char>,
    content: Seq<char>,
)
    requires
        m.contains_key(content),
    ensures
        create_check(m, content) == Err::<(), DispatchError>(DispatchError::AlreadyClaimed),
        create_effect(m, caller, content) == m,
        owner_of(create_effect(m, caller, content), content) == owner_of(m, content),
{
}

/// Revoking a claim as anyone but its owner fails with `NotOwner` and
/// leaves the registry entry unchanged.
pub proof fn lemma_revoke_non_owner_unchanged(
    m: Map<Seq<char>, Seq<char>>,
    caller: Seq<char>,
    content: Seq<char>,
)
    requires
        m.contains_key(content),
        m[content] != caller,
    ensures
        revoke_check(m, caller, content) == Err::<(), DispatchError>(DispatchError::NotOwner),
        revoke_effect(m, caller, content) == m,
        owner_of(revoke_effect(m, caller, content), content) == owner_of(m, content),
{
}

/// Revoking a claim as its owner succeeds, and a lookup on that content
/// afterwards returns no owner.
pub proof fn lemma_revoke_by_owner(
    m: Map<Seq<char>, Seq<char>>,
    caller: Seq<char>,
    content: Seq<char>,
)
    requires
        m.contains_key(content),
        m[content] == caller,
    ensures
        revoke_check(m, caller, content) is Ok,
        owner_of(revoke_effect(m, caller, content), content) is None,
{
}

} // verus!
