//! Role-based access control over a fixed catalog of roles.
//!
//! Every account holds a set of permissions, stored as a bitmask. For each
//! role there is a grant permission ("holds the role") and an admin
//! permission ("may grant and revoke the role"); one further permission,
//! the super-admin, passes every admin check.
//!
//! The account that makes a call is always handed in by the caller of the
//! library, and so is the log that receives the events: nothing is read
//! from or written to the surroundings.

pub mod account;
pub mod acl;
pub mod contract;
pub mod event;
pub mod laws;
pub mod permissions;
pub mod role;
pub mod store;

pub use account::AccountId;
pub use acl::{Acl, EnforcementFailure, Outcome, Requirement};
pub use contract::Counter;
pub use event::{AclEvent, AclEventId, AclEventMetadata, EventLog, EVENT_STANDARD, EVENT_VERSION};
pub use permissions::{AclPermissions, EncodingError, Permission, ALL_BITS, MAX_BITFLAG_SHIFT};
pub use role::{AclAdmin, Role, ROLE_COUNT};
pub use store::PermissionStore;
