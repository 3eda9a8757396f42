//! A client library for delivering push notifications through the
//! Firebase Cloud Messaging HTTP endpoint.
//!
//! A caller assembles a notification document with
//! [`notification::NotificationBuilder`], which mirrors the title and
//! body into the generic and the Apple alert blocks and keeps every
//! optional field out of the wire document unless it was set. The
//! document serializes to compact JSON through the verified renderer
//! in [`json`]. A [`client::FirebaseClient`] owns the authenticating
//! transport and the target URI for one project; the response policy
//! for a dispatch — success on 200 or 204, status plus body text on
//! anything else, and transport failures passed through untouched —
//! lives in [`client`], with the error kinds in [`error`].

pub mod client;
pub mod error;
pub mod json;
pub mod notification;
