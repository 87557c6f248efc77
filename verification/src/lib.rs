//! Discover which permission scopes a GitHub token holds and expose them as a
//! structured permission object.
//!
//! The [`oauth::OAuthContext`] resolver performs one authenticated discovery
//! request, keeps the raw scope strings it returned, and maps them on demand to
//! the [`transform::GithubTokenScope`] permission structure.

pub mod oauth;
pub mod transform;
