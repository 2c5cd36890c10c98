//! The commands specific to Zephyr.

use super::{CommandHeader, McuMgrCommand};
use crate::cbor::{entries, Field, Item};
use vstd::prelude::*;

verus! {

/// The command group of the Zephyr commands.
pub const ZEPHYR_GROUP: u16 = 63;

/// Command that erases the `storage_partition` flash partition
#[derive(Clone, Debug, PartialEq, Eq)]
pub struct EraseStorage;

impl McuMgrCommand for EraseStorage {
    type Response = EraseStorageResponse;

    open spec fn header_spec(&self) -> CommandHeader {
        CommandHeader { write: true, group: ZEPHYR_GROUP, command: 0 }
    }

    open spec fn fields_spec(&self) -> Seq<(Seq<char>, Item)> {
        Seq::empty()
    }

    fn header(&self) -> CommandHeader {
        CommandHeader { write: true, group: ZEPHYR_GROUP, command: 0 }
    }

    fn fields(&self) -> Vec<Field<'_>> {
        let fields: Vec<Field<'_>> = Vec::new();
        assert(entries(fields@) =~= self.fields_spec());
        fields
    }
}

/// Response for [`EraseStorage`] command
#[derive(Clone, Debug, PartialEq, Eq)]
pub struct EraseStorageResponse;

} // verus!
