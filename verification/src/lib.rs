//! Shared, mutable-looking records over an append-only, content-addressed,
//! hash-chained store.
//!
//! Peers never update or delete data in place: every change is a new
//! immutable fact (an entry, an action, or a link between addresses).
//! This crate provides, in verified form, the two mechanisms that make
//! mutability and discovery work on top of such a store:
//!
//! * a revision resolver that reconstructs the current value, the full
//!   revision history, and the delete status of a logical record from its
//!   graph of creates, update-edges and delete markers ([`room`]), and
//! * a per-operation validation engine that every peer runs independently
//!   over incoming operations to decide acceptance ([`room_integrity`],
//!   [`unzoom_integrity`]).
//!
//! The store itself (gossip, networking, signatures) is an outside
//! collaborator; it is modelled here as plain data ([`store::Store`]) so
//! that everything that reads or writes through it can be verified.
//! Anchor addresses are computed by the same hash-path digests the
//! Holochain runtime uses ([`anchor`]).

pub mod anchor;
pub mod entries;
pub mod hash;
pub mod room;
pub mod room_integrity;
pub mod store;
pub mod unzoom;
pub mod unzoom_integrity;
pub mod verdict;
