use vstd::prelude::*;

use crate::errors::MarketplaceError;
use crate::types::{AccountId, RoleType};

verus! {

/// The explicitly assigned holder of each role; `None` for a role that was
/// never assigned, which then falls back to the admin.
#[derive(Clone, Copy, Debug, PartialEq, Eq, Structural)]
pub struct RoleAssignments {
    pub protocol_config: Option<AccountId>,
    pub emergency_pause: Option<AccountId>,
    pub collection_admin: Option<AccountId>,
    pub upgrade: Option<AccountId>,
}

/// The explicit holder of `role`, if any.
pub open spec fn explicit_holder(a: RoleAssignments, role: RoleType) -> Option<AccountId> {
    match role {
        RoleType::ProtocolConfig => a.protocol_config,
        RoleType::EmergencyPause => a.emergency_pause,
        RoleType::CollectionAdmin => a.collection_admin,
        RoleType::Upgrade => a.upgrade,
    }
}

/// Who holds `role`: its explicit holder, or else the admin.
pub open spec fn effective_holder(a: RoleAssignments, role: RoleType, admin: Option<AccountId>) -> Option<
    AccountId,
> {
    match explicit_holder(a, role) {
        Some(h) => Some(h),
        None => admin,
    }
}

impl RoleAssignments {
    /// No role assigned: every role falls back to the admin.
    pub fn new() -> (r: RoleAssignments)
        ensures
            forall|role: RoleType| explicit_holder(r, role) is None,
    {
        RoleAssignments {
            protocol_config: None,
            emergency_pause: None,
            collection_admin: None,
            upgrade: None,
        }
    }

    /// The explicit holder of `role`.
    pub fn explicit(&self, role: RoleType) -> (r: Option<AccountId>)
        ensures
            r == explicit_holder(*self, role),
    {
        match role {
            RoleType::ProtocolConfig => self.protocol_config,
            RoleType::EmergencyPause => self.emergency_pause,
            RoleType::CollectionAdmin => self.collection_admin,
            RoleType::Upgrade => self.upgrade,
        }
    }

    /// Who holds `role` when the admin is `admin`.
    pub fn holder(&self, role: RoleType, admin: Option<AccountId>) -> (r: Option<AccountId>)
        ensures
            r == effective_holder(*self, role, admin),
    {
        match self.explicit(role) {
            Some(h) => Some(h),
            None => admin,
        }
    }

    /// Refuses with `Unauthorized` unless `caller` holds `role`.
    pub fn require_role(&self, role: RoleType, admin: Option<AccountId>, caller: AccountId) -> (r: Result<
        (),
        MarketplaceError,
    >)
        ensures
            r is Ok <==> effective_holder(*self, role, admin) == Some(caller),
            r is Err ==> r == Err::<(), MarketplaceError>(MarketplaceError::Unauthorized),
    {
        match self.holder(role, admin) {
            Some(h) => if h == caller {
                Ok(())
            } else {
                Err(MarketplaceError::Unauthorized)
            },
            None => Err(MarketplaceError::Unauthorized),
        }
    }

    /// Hands `role` to `holder` (the last step of a role transfer).
    pub fn assign(&mut self, role: RoleType, holder: AccountId)
        ensures
            explicit_holder(*final(self), role) == Some(holder),
            forall|other: RoleType|
                other != role ==> explicit_holder(*final(self), other) == explicit_holder(*old(self), other),
    {
        match role {
            RoleType::ProtocolConfig => self.protocol_config = Some(holder),
            RoleType::EmergencyPause => self.emergency_pause = Some(holder),
            RoleType::CollectionAdmin => self.collection_admin = Some(holder),
            RoleType::Upgrade => self.upgrade = Some(holder),
        }
    }

    /// Gives every role that has no explicit holder the admin as explicit
    /// holder; roles already assigned keep their holder.
    pub fn migrate(&mut self, admin: AccountId)
        ensures
            forall|role: RoleType|
                explicit_holder(*final(self), role) == Some(
                    effective_holder(*old(self), role, Some(admin))->Some_0,
                ),
    {
        if self.protocol_config.is_none() {
            self.protocol_config = Some(admin);
        }
        if self.emergency_pause.is_none() {
            self.emergency_pause = Some(admin);
        }
        if self.collection_admin.is_none() {
            self.collection_admin = Some(admin);
        }
        if self.upgrade.is_none() {
            self.upgrade = Some(admin);
        }
    }
}

/// Migration changes nobody's authority: after it, every role is held by
/// whoever held it before (its explicit holder, or the admin).
pub proof fn lemma_migration_preserves_holders(
    before: RoleAssignments,
    after: RoleAssignments,
    admin: AccountId,
    role: RoleType,
)
    requires
        forall|r: RoleType|
            explicit_holder(after, r) == Some(effective_holder(before, r, Some(admin))->Some_0),
    ensures
        effective_holder(after, role, Some(admin)) == effective_holder(before, role, Some(admin)),
{
    assert(explicit_holder(after, role) == Some(effective_holder(before, role, Some(admin))->Some_0));
}

/// Migrating twice is the same as migrating once.
pub proof fn lemma_migration_idempotent(
    once: RoleAssignments,
    twice: RoleAssignments,
    admin: AccountId,
)
    requires
        forall|r: RoleType| #[trigger] explicit_holder(once, r) is Some,
        forall|r: RoleType|
            explicit_holder(twice, r) == Some(effective_holder(once, r, Some(admin))->Some_0),
    ensures
        twice == once,
{
    assert(explicit_holder(twice, RoleType::ProtocolConfig) == explicit_holder(once, RoleType::ProtocolConfig));
    assert(explicit_holder(twice, RoleType::EmergencyPause) == explicit_holder(once, RoleType::EmergencyPause));
    assert(explicit_holder(twice, RoleType::CollectionAdmin) == explicit_holder(once, RoleType::CollectionAdmin));
    assert(explicit_holder(twice, RoleType::Upgrade) == explicit_holder(once, RoleType::Upgrade));
}

} // verus!
