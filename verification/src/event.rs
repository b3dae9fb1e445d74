//! Audit events: the record of each change of a permission.
//!
//! Events follow the NEP-297 format: a record names its standard and
//! version, the kind of event, and the data of the event.

use crate::account::AccountId;
use crate::role::Role;
use vstd::prelude::*;

verus! {

/// The standard that the events belong to.
pub const EVENT_STANDARD: &'static str = "nep279";

/// The version of the standard.
pub const EVENT_VERSION: &'static str = "1.0.0";

/// Events resulting from ACL actions.
#[derive(Clone, Copy, Debug, PartialEq, Eq, Hash, Structural)]
pub enum AclEventId {
    AdminAdded,
    AdminRevoked,
    RoleGranted,
    RoleRevoked,
}

impl AclEventId {
    /// The name used in the `event` field of a record.
    pub open spec fn spec_name(self) -> Seq<char> {
        match self {
            AclEventId::AdminAdded => "acl_admin_added"@,
            AclEventId::AdminRevoked => "acl_admin_revoked"@,
            AclEventId::RoleGranted => "acl_role_granted"@,
            AclEventId::RoleRevoked => "acl_role_revoked"@,
        }
    }

    /// Returns the name to be used in the `event` field when formatting
    /// according to NEP-297.
    pub fn name(self) -> (name: &'static str)
        ensures
            name@ == self.spec_name(),
    {
        match self {
            AclEventId::AdminAdded => "acl_admin_added",
            AclEventId::AdminRevoked => "acl_admin_revoked",
            AclEventId::RoleGranted => "acl_role_granted",
            AclEventId::RoleRevoked => "acl_role_revoked",
        }
    }
}

/// What a record says, as plain values.
pub ghost struct EventRecord {
    pub standard: Seq<char>,
    pub version: Seq<char>,
    pub event: AclEventId,
    pub role: Role,
    pub account_id: Seq<char>,
    pub predecessor: Seq<char>,
}

/// The record of the event `event` on `role`, which affects `account_id`
/// and was caused by `predecessor`.
pub open spec fn event_record(
    event: AclEventId,
    role: Role,
    account_id: Seq<char>,
    predecessor: Seq<char>,
) -> EventRecord {
    EventRecord {
        standard: EVENT_STANDARD@,
        version: EVENT_VERSION@,
        event,
        role,
        account_id,
        predecessor,
    }
}

/// Metadata emitted in NEP-297 event field `data`.
#[derive(Debug)]
pub struct AclEventMetadata {
    /// The role related to the event.
    pub role: Role,
    /// The account whose permissions are affected.
    pub account_id: AccountId,
    /// The account which originated the contract call.
    pub predecessor: AccountId,
}

/// Represents a NEP-297 event.
#[derive(Debug)]
pub struct AclEvent {
    pub standard: &'static str,
    pub version: &'static str,
    pub event: AclEventId,
    pub data: AclEventMetadata,
}

impl View for AclEvent {
    type V = EventRecord;

    open spec fn view(&self) -> EventRecord {
        EventRecord {
            standard: self.standard@,
            version: self.version@,
            event: self.event,
            role: self.data.role,
            account_id: self.data.account_id@,
            predecessor: self.data.predecessor@,
        }
    }
}

impl AclEvent {
    /// Makes the record of event `id`. Parameters `role` and `account_id`
    /// are passed on to `AclEventMetadata`, together with `predecessor`,
    /// the account that made the call.
    pub fn new(id: AclEventId, role: Role, account_id: AccountId, predecessor: AccountId) -> (event:
        AclEvent)
        ensures
            event@ == event_record(id, role, account_id@, predecessor@),
    {
        AclEvent {
            standard: EVENT_STANDARD,
            version: EVENT_VERSION,
            event: id,
            data: AclEventMetadata { role, account_id, predecessor },
        }
    }

    /// Returns the name of the event's kind, for the `event` field.
    pub fn event_name(&self) -> (name: &'static str)
        ensures
            name@ == self@.event.spec_name(),
    {
        self.event.name()
    }
}

/// How many records of kind `id` the sequence `log` holds.
pub open spec fn count_of(log: Seq<EventRecord>, id: AclEventId) -> nat
    decreases log.len(),
{
    if log.len() == 0 {
        0
    } else {
        count_of(log.drop_last(), id) + if log.last().event == id {
            1nat
        } else {
            0nat
        }
    }
}

/// The log of emitted events. Records are only ever appended, and stay in
/// the order in which they were emitted.
#[derive(Debug)]
pub struct EventLog {
    records: Vec<AclEvent>,
}

impl View for EventLog {
    type V = Seq<EventRecord>;

    /// The records of the log, oldest first.
    closed spec fn view(&self) -> Seq<EventRecord> {
        self.records@.map_values(|event: AclEvent| event@)
    }
}

impl EventLog {
    /// Makes a log without records.
    pub fn new() -> (log: EventLog)
        ensures
            log@ == Seq::<EventRecord>::empty(),
    {
        let log = EventLog { records: Vec::new() };
        assert(log@ =~= Seq::<EventRecord>::empty());
        log
    }

    /// Emits `event`: appends its record to the log.
    pub fn emit(&mut self, event: AclEvent)
        ensures
            final(self)@ == old(self)@.push(event@),
    {
        self.records.push(event);
        assert(self@ =~= old(self)@.push(event@));
    }

    /// Returns the number of records.
    pub fn len(&self) -> (len: usize)
        ensures
            len == self@.len(),
    {
        self.records.len()
    }

    /// Returns the record at position `index`, counted from the oldest.
    pub fn get(&self, index: usize) -> (event: Option<&AclEvent>)
        ensures
            event is Some <==> index < self@.len(),
            event matches Some(e) ==> e@ == self@[index as int],
    {
        if index < self.records.len() {
            Some(&self.records[index])
        } else {
            None
        }
    }

    /// Returns the number of records of kind `id`.
    pub fn count(&self, id: AclEventId) -> (count: usize)
        ensures
            count == count_of(self@, id),
    {
        let mut count: usize = 0;
        let mut i: usize = 0;
        while i < self.records.len()
            invariant
                i <= self.records.len(),
                count <= i,
                count == count_of(self@.take(i as int), id),
            decreases self.records.len() - i,
        {
            proof {
                let next = self@.take(i + 1);
                assert(next.drop_last() =~= self@.take(i as int));
                assert(next.last() == self@[i as int]);
            }
            if self.records[i].event == id {
                count += 1;
            }
            i += 1;
        }
        assert(self@.take(i as int) =~= self@);
        count
    }
}

} // verus!
