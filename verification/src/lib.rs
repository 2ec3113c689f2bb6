//! Authentication state for a tree of reactively rendered components, and a
//! subscription mechanism through which any consumer can observe the state
//! held by a provider: a synchronous snapshot at registration time plus one
//! delivery per later update, until the subscription is released.

/// The authentication state held by a provider, and its model.
pub mod context;
/// Registration of notification targets against a provider, and delivery of
/// updates to a consumer's own mailbox.
pub mod subscribe;
