//! OAuth scopes.

use vstd::prelude::*;

verus! {

/// User identity.
pub const IDENTITY: &'static str = "identity";

/// User email.
pub const IDENTITY_EMAIL: &'static str = "identity[email]";

/// User memberships.
pub const IDENTITY_MEMBERSHIPS: &'static str = "identity.memberships";

/// Campaigns.
pub const CAMPAIGNS: &'static str = "campaigns";

/// Campaign members.
pub const CAMPAIGNS_MEMBERS: &'static str = "campaigns.members";

/// Campaign members email.
pub const CAMPAIGNS_MEMBERS_EMAIL: &'static str = "campaigns.members[email]";

/// Campaign members address.
pub const CAMPAIGNS_MEMBERS_ADDRESS: &'static str = "campaigns.members.address";

/// Campaign posts.
pub const CAMPAIGNS_POSTS: &'static str = "campaigns.posts";

/// Campaign webhooks.
pub const CAMPAIGNS_WEBHOOK: &'static str = "w:campaigns.webhook";

} // verus!
