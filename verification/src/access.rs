use vstd::prelude::*;
use crate::auth::Authorization;
use crate::envelope::Address;
use crate::error::OracleError;

verus! {

/// The part a counterpart plays towards the instance that lists it.
#[derive(Clone, Copy, Debug, PartialEq, Eq, Structural)]
pub enum Role {
    /// May supply data to a broker.
    Publisher,
    /// May deliver data to a subscriber.
    Broker,
}

/// The mathematical value of an [`AccessControl`]: the admin, if one has been
/// set, and the set of whitelisted counterparts.
pub struct AccessView {
    pub admin: Option<Seq<u8>>,
    pub allowed: Set<(Role, Seq<u8>)>,
}

impl AccessView {
    /// No admin and nobody whitelisted.
    pub open spec fn empty() -> AccessView {
        AccessView { admin: None, allowed: Set::empty() }
    }

    /// Whether `principal` is whitelisted in `role`.
    pub open spec fn is_allowed(self, role: Role, principal: Seq<u8>) -> bool {
        self.allowed.contains((role, principal))
    }

    /// What a guard on the whitelist returns: `WhitelistViolation` for a
    /// principal that is not listed in `role`.
    pub open spec fn whitelist_check(self, role: Role, principal: Seq<u8>) -> Result<(), OracleError> {
        if self.is_allowed(role, principal) {
            Ok(())
        } else {
            Err(OracleError::WhitelistViolation)
        }
    }

    /// Whether a call that carries the proofs `auth` acts for the admin.
    pub open spec fn admin_among(self, auth: Set<Seq<u8>>) -> bool {
        self.admin is Some && auth.contains(self.admin->Some_0)
    }

    /// This state with `admin` stored.
    pub open spec fn with_admin(self, admin: Seq<u8>) -> AccessView {
        AccessView { admin: Some(admin), allowed: self.allowed }
    }

    /// This state with `principal` whitelisted in `role`.
    pub open spec fn allowing(self, role: Role, principal: Seq<u8>) -> AccessView {
        AccessView { admin: self.admin, allowed: self.allowed.insert((role, principal)) }
    }

    /// This state with `principal` no longer whitelisted in `role`.
    pub open spec fn denying(self, role: Role, principal: Seq<u8>) -> AccessView {
        AccessView { admin: self.admin, allowed: self.allowed.remove((role, principal)) }
    }

    /// What storing an admin returns: `DoubleInitialization` if one is stored
    /// already.
    pub open spec fn set_admin_result(self) -> Result<(), OracleError> {
        if self.admin is Some {
            Err(OracleError::DoubleInitialization)
        } else {
            Ok(())
        }
    }

    /// The state after an attempt to store `admin`: the first attempt stores
    /// it, a later one changes nothing.
    pub open spec fn set_admin_next(self, admin: Seq<u8>) -> AccessView {
        if self.admin is Some {
            self
        } else {
            self.with_admin(admin)
        }
    }

    /// What a change of the whitelist returns: `AuthorizationError` unless the
    /// call acts for the admin.
    pub open spec fn admin_check(self, auth: Set<Seq<u8>>) -> Result<(), OracleError> {
        if self.admin_among(auth) {
            Ok(())
        } else {
            Err(OracleError::AuthorizationError)
        }
    }

    /// The state after an attempt to whitelist `principal` in `role`.
    pub open spec fn allow_next(self, role: Role, principal: Seq<u8>, auth: Set<Seq<u8>>) -> AccessView {
        if self.admin_among(auth) {
            self.allowing(role, principal)
        } else {
            self
        }
    }

    /// The state after an attempt to take `principal` off the whitelist for
    /// `role`.
    pub open spec fn deny_next(self, role: Role, principal: Seq<u8>, auth: Set<Seq<u8>>) -> AccessView {
        if self.admin_among(auth) {
            self.denying(role, principal)
        } else {
            self
        }
    }
}

/// One whitelisted counterpart.
pub struct WhitelistEntry {
    pub role: Role,
    pub principal: Address,
}

impl WhitelistEntry {
    /// What the entry stands for in the whitelist.
    pub open spec fn key(self) -> (Role, Seq<u8>) {
        (self.role, self.principal@)
    }

    fn matches(&self, role: Role, principal: &Address) -> (yes: bool)
        ensures
            yes == (self.key() == (role, principal@)),
    {
        self.role == role && self.principal.same(principal)
    }
}

/// The keys of a list of whitelist entries, as a set.
pub open spec fn entry_keys(entries: Seq<WhitelistEntry>) -> Set<(Role, Seq<u8>)> {
    Set::new(
        |k: (Role, Seq<u8>)| exists|i: int| 0 <= i < entries.len() && #[trigger] entries[i].key() == k,
    )
}

/// The whitelist of approved counterparts of one instance, and its admin.
///
/// The admin is set once. Only a call that the admin has authorized changes
/// the whitelist.
pub struct AccessControl {
    admin: Option<Address>,
    entries: Vec<WhitelistEntry>,
}

impl View for AccessControl {
    type V = AccessView;

    closed spec fn view(&self) -> AccessView {
        AccessView {
            admin: match self.admin {
                Some(a) => Some(a@),
                None => None,
            },
            allowed: entry_keys(self.entries@),
        }
    }
}

impl AccessControl {
    /// An instance without admin and with an empty whitelist.
    pub fn new() -> (access: AccessControl)
        ensures
            access@ == AccessView::empty(),
    {
        let access = AccessControl { admin: None, entries: Vec::new() };
        proof {
            assert(access@.allowed =~= Set::empty());
        }
        access
    }

    /// An instance rebuilt from what was persisted of it.
    pub fn restore(admin: Option<Address>, entries: Vec<WhitelistEntry>) -> (access: AccessControl)
        ensures
            access@.allowed == entry_keys(entries@),
            match admin {
                Some(a) => access@.admin == Some(a@),
                None => access@.admin is None,
            },
    {
        AccessControl { admin, entries }
    }

    /// The admin, if one has been set.
    pub fn admin(&self) -> (admin: Option<&Address>)
        ensures
            match admin {
                Some(a) => self@.admin == Some(a@),
                None => self@.admin is None,
            },
    {
        self.admin.as_ref()
    }

    /// Stores the admin. Fails with `DoubleInitialization`, changing nothing,
    /// if an admin has been stored before.
    pub fn set_admin(&mut self, admin: Address) -> (result: Result<(), OracleError>)
        ensures
            result == old(self)@.set_admin_result(),
            final(self)@ == old(self)@.set_admin_next(admin@),
    {
        if self.admin.is_some() {
            return Err(OracleError::DoubleInitialization);
        }
        self.admin = Some(admin);
        Ok(())
    }

    /// Succeeds if the call acts for the stored admin; fails with
    /// `AuthorizationError` if no admin is stored or its proof is absent.
    pub fn require_admin_auth(&self, auth: &Authorization) -> (result: Result<(), OracleError>)
        ensures
            result == self@.admin_check(auth@),
    {
        match &self.admin {
            Some(admin) => {
                if auth.authorizes(admin) {
                    Ok(())
                } else {
                    Err(OracleError::AuthorizationError)
                }
            },
            None => Err(OracleError::AuthorizationError),
        }
    }

    /// Whether `principal` is whitelisted in `role`. Someone never listed is
    /// not.
    pub fn is_allowed(&self, role: Role, principal: &Address) -> (yes: bool)
        ensures
            yes == self@.is_allowed(role, principal@),
    {
        let mut i: usize = 0;
        while i < self.entries.len()
            invariant
                i <= self.entries@.len(),
                forall|j: int| 0 <= j < i ==> self.entries@[j].key() != (role, principal@),
            decreases self.entries.len() - i,
        {
            if self.entries[i].matches(role, principal) {
                return true;
            }
            i += 1;
        }
        false
    }

    /// Whitelists `principal` in `role`. Fails with `AuthorizationError`,
    /// changing nothing, unless the call acts for the admin.
    pub fn allow(&mut self, role: Role, principal: Address, auth: &Authorization) -> (result: Result<
        (),
        OracleError,
    >)
        ensures
            result == old(self)@.admin_check(auth@),
            final(self)@ == old(self)@.allow_next(role, principal@, auth@),
    {
        match self.require_admin_auth(auth) {
            Ok(()) => {},
            Err(e) => {
                return Err(e);
            },
        }
        if !self.is_allowed(role, &principal) {
            let ghost before = self.entries@;
            let ghost k = (role, principal@);
            self.entries.push(WhitelistEntry { role, principal });
            proof {
                let after = self.entries@;
                assert(after[before.len() as int].key() == k);
                assert forall|x: (Role, Seq<u8>)|
                    entry_keys(after).contains(x) == entry_keys(before).insert(k).contains(x) by {
                    if entry_keys(before).contains(x) {
                        let i = choose|i: int| 0 <= i < before.len() && #[trigger] before[i].key() == x;
                        assert(after[i].key() == x);
                    }
                    if entry_keys(after).contains(x) {
                        let i = choose|i: int| 0 <= i < after.len() && #[trigger] after[i].key() == x;
                        if i < before.len() {
                            assert(before[i].key() == x);
                        }
                    }
                }
                assert(entry_keys(after) =~= entry_keys(before).insert(k));
            }
        } else {
            proof {
                assert(old(self)@.allowed.insert((role, principal@)) =~= old(self)@.allowed);
            }
        }
        Ok(())
    }

    /// Takes `principal` off the whitelist for `role`; someone not listed stays
    /// so. Fails with `AuthorizationError`, changing nothing, unless the call
    /// acts for the admin.
    pub fn deny(&mut self, role: Role, principal: &Address, auth: &Authorization) -> (result: Result<
        (),
        OracleError,
    >)
        ensures
            result == old(self)@.admin_check(auth@),
            final(self)@ == old(self)@.deny_next(role, principal@, auth@),
    {
        match self.require_admin_auth(auth) {
            Ok(()) => {},
            Err(e) => {
                return Err(e);
            },
        }
        let ghost before = self.entries@;
        let ghost k = (role, principal@);
        let mut kept: Vec<WhitelistEntry> = Vec::new();
        while self.entries.len() > 0
            invariant
                self.admin == old(self).admin,
                self.entries@.len() <= before.len(),
                self.entries@ == before.take(self.entries@.len() as int),
                k == (role, principal@),
                forall|j: int| 0 <= j < kept@.len() ==> #[trigger] kept@[j].key() != k,
                forall|j: int|
                    0 <= j < kept@.len() ==> entry_keys(before).contains(#[trigger] kept@[j].key()),
                forall|i: int|
                    self.entries@.len() <= i < before.len() && #[trigger] before[i].key() != k
                        ==> entry_keys(kept@).contains(before[i].key()),
            decreases self.entries.len(),
        {
            let ghost n = self.entries@.len();
            let ghost kept_before = kept@;
            let entry = self.entries.pop().unwrap();
            proof {
                assert(entry == before[n - 1]);
                assert(self.entries@ =~= before.take(n - 1));
            }
            if !entry.matches(role, principal) {
                kept.push(entry);
                proof {
                    assert(kept@[kept_before.len() as int].key() == before[n - 1].key());
                    assert forall|i: int|
                        n - 1 <= i < before.len() && #[trigger] before[i].key() != k implies entry_keys(
                        kept@,
                    ).contains(before[i].key()) by {
                        if i == n - 1 {
                            assert(kept@[kept_before.len() as int].key() == before[i].key());
                        } else {
                            let j = choose|j: int|
                                0 <= j < kept_before.len() && #[trigger] kept_before[j].key()
                                    == before[i].key();
                            assert(kept@[j].key() == before[i].key());
                        }
                    }
                }
            }
        }
        self.entries = kept;
        proof {
            let after = self.entries@;
            assert forall|x: (Role, Seq<u8>)|
                entry_keys(after).contains(x) == entry_keys(before).remove(k).contains(x) by {
                if entry_keys(after).contains(x) {
                    let j = choose|j: int| 0 <= j < after.len() && #[trigger] after[j].key() == x;
                    assert(after[j].key() != k);
                    assert(entry_keys(before).contains(after[j].key()));
                }
                if entry_keys(before).remove(k).contains(x) {
                    let i = choose|i: int| 0 <= i < before.len() && #[trigger] before[i].key() == x;
                    assert(entry_keys(after).contains(before[i].key()));
                }
            }
            assert(entry_keys(after) =~= entry_keys(before).remove(k));
        }
        Ok(())
    }
}

} // verus!
