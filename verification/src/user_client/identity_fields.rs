//! Field names for `identity_with_fields`.

use vstd::prelude::*;

verus! {

/// User bio.
pub const ABOUT: &'static str = "about";

/// Account creation time.
pub const CREATED: &'static str = "created";

/// Email.
pub const EMAIL: &'static str = "email";

/// First name.
pub const FIRST_NAME: &'static str = "first_name";

/// Full name.
pub const FULL_NAME: &'static str = "full_name";

/// Whether pledges are hidden.
pub const HIDE_PLEDGES: &'static str = "hide_pledges";

/// Avatar image URL.
pub const IMAGE_URL: &'static str = "image_url";

/// Whether the user is a creator.
pub const IS_CREATOR: &'static str = "is_creator";

/// Whether the email is verified.
pub const IS_EMAIL_VERIFIED: &'static str = "is_email_verified";

/// Last name.
pub const LAST_NAME: &'static str = "last_name";

/// Like count.
pub const LIKE_COUNT: &'static str = "like_count";

/// Social connections.
pub const SOCIAL_CONNECTIONS: &'static str = "social_connections";

/// Thumbnail URL.
pub const THUMB_URL: &'static str = "thumb_url";

/// Patreon profile URL.
pub const URL: &'static str = "url";

/// Vanity username.
pub const VANITY: &'static str = "vanity";

} // verus!
