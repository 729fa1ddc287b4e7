//! Webhook trigger string constants.

use vstd::prelude::*;

verus! {

pub const MEMBERS_CREATE: &'static str = "members:create";

pub const MEMBERS_UPDATE: &'static str = "members:update";

pub const MEMBERS_DELETE: &'static str = "members:delete";

pub const MEMBERS_PLEDGE_CREATE: &'static str = "members:pledge:create";

pub const MEMBERS_PLEDGE_UPDATE: &'static str = "members:pledge:update";

pub const MEMBERS_PLEDGE_DELETE: &'static str = "members:pledge:delete";

pub const POSTS_PUBLISH: &'static str = "posts:publish";

pub const POSTS_UPDATE: &'static str = "posts:update";

pub const POSTS_DELETE: &'static str = "posts:delete";

} // verus!
