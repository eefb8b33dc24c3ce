//! The application-defined entry payloads.
//!
//! Entries are immutable, content-addressed payloads.  The room network
//! defines three kinds; they form the closed union [`EntryTypes`], over
//! which the validation engine dispatches.  "Updating" an entry never
//! mutates it: a new entry is written and linked from the original.

use vstd::prelude::*;

verus! {

/// The single room-wide metadata record (name, icon, free-form metadata).
#[derive(Debug, PartialEq)]
pub struct RoomInfo {
    pub name: String,
    pub icon_src: Option<String>,
    pub meta_data: Option<String>,
}

/// A file or resource shared into the room.
#[derive(Debug, PartialEq)]
pub struct Attachment {
    pub src: String,
}

/// A room spawned from this one; the seed appendix names its sub-network.
#[derive(Debug, PartialEq)]
pub struct DescendentRoom {
    pub network_seed_appendix: String,
    pub name: String,
    pub icon_src: Option<String>,
    pub meta_data: Option<String>,
}

/// The closed union of entry kinds this network defines.
///
/// Each kind has its own validation rule set; adding a variant forces every
/// dispatch over operations to handle it.
#[derive(Debug, PartialEq)]
pub enum EntryTypes {
    RoomInfo(RoomInfo),
    Attachment(Attachment),
    DescendentRoom(DescendentRoom),
}

/// Position of each entry kind in the zome's entry-type table.
pub open spec fn spec_entry_type_index(entry: EntryTypes) -> u8 {
    match entry {
        EntryTypes::RoomInfo(_) => 0,
        EntryTypes::Attachment(_) => 1,
        EntryTypes::DescendentRoom(_) => 2,
    }
}

/// How many entry kinds the zome defines.
pub const ENTRY_TYPE_COUNT: u8 = 3;

} // verus!
