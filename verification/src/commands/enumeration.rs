//! The commands that enumerate the command groups of the device.

use super::{CommandHeader, McuMgrCommand};
use crate::cbor::{entries, optional, put_optional, Field, FieldValue, Item};
use vstd::prelude::*;

verus! {

/// The command group of the enumeration commands.
pub const ENUM_GROUP: u16 = 10;

/// Command that counts the command groups
#[derive(Clone, Debug, PartialEq, Eq)]
pub struct GroupCount;

impl McuMgrCommand for GroupCount {
    type Response = GroupCountResponse;

    open spec fn header_spec(&self) -> CommandHeader {
        CommandHeader { write: false, group: ENUM_GROUP, command: 0 }
    }

    open spec fn fields_spec(&self) -> Seq<(Seq<char>, Item)> {
        Seq::empty()
    }

    fn header(&self) -> CommandHeader {
        CommandHeader { write: false, group: ENUM_GROUP, command: 0 }
    }

    fn fields(&self) -> Vec<Field<'_>> {
        let fields: Vec<Field<'_>> = Vec::new();
        assert(entries(fields@) =~= self.fields_spec());
        fields
    }
}

/// Response for [`GroupCount`] command
#[derive(Clone, Debug, PartialEq, Eq)]
pub struct GroupCountResponse {
    /// number of command groups
    pub count: u16,
}

/// Command that lists the command groups
#[derive(Clone, Debug, PartialEq, Eq)]
pub struct ListGroups;

impl McuMgrCommand for ListGroups {
    type Response = ListGroupsResponse;

    open spec fn header_spec(&self) -> CommandHeader {
        CommandHeader { write: false, group: ENUM_GROUP, command: 1 }
    }

    open spec fn fields_spec(&self) -> Seq<(Seq<char>, Item)> {
        Seq::empty()
    }

    fn header(&self) -> CommandHeader {
        CommandHeader { write: false, group: ENUM_GROUP, command: 1 }
    }

    fn fields(&self) -> Vec<Field<'_>> {
        let fields: Vec<Field<'_>> = Vec::new();
        assert(entries(fields@) =~= self.fields_spec());
        fields
    }
}

/// Response for [`ListGroups`] command
#[derive(Clone, Debug, PartialEq, Eq)]
pub struct ListGroupsResponse {
    /// IDs of the command groups
    pub groups: Vec<u16>,
}

/// Command that reads the ID of a single command group
#[derive(Clone, Debug, PartialEq, Eq)]
pub struct GroupId {
    /// index in the list of command groups
    pub index: Option<u16>,
}

impl McuMgrCommand for GroupId {
    type Response = GroupIdResponse;

    open spec fn header_spec(&self) -> CommandHeader {
        CommandHeader { write: false, group: ENUM_GROUP, command: 2 }
    }

    open spec fn fields_spec(&self) -> Seq<(Seq<char>, Item)> {
        optional(
            "index"@,
            match self.index {
                Some(index) => Some(Item::Unsigned(index as u64)),
                None => None,
            },
        )
    }

    fn header(&self) -> CommandHeader {
        CommandHeader { write: false, group: ENUM_GROUP, command: 2 }
    }

    fn fields(&self) -> Vec<Field<'_>> {
        let mut fields: Vec<Field<'_>> = Vec::new();
        let index = match self.index {
            Some(index) => Some(FieldValue::Unsigned(index as u64)),
            None => None,
        };
        put_optional(&mut fields, "index", index);
        assert(entries(fields@) =~= self.fields_spec());
        fields
    }
}

/// Response for [`GroupId`] command
#[derive(Clone, Debug, PartialEq, Eq)]
pub struct GroupIdResponse {
    /// ID of the command group
    pub group: u16,
}

} // verus!
