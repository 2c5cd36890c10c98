//! The commands that read statistics.

use super::{CommandHeader, McuMgrCommand};
use crate::cbor::{entries, put, Field, FieldValue, Item};
use std::collections::HashMap;
use vstd::prelude::*;

verus! {

/// The command group of the statistics commands.
pub const STATS_GROUP: u16 = 2;

/// Command that reads the values of a statistics group
#[derive(Clone, Debug, PartialEq, Eq)]
pub struct GroupData<'a> {
    /// name of the group
    pub name: &'a str,
}

impl<'a> McuMgrCommand for GroupData<'a> {
    type Response = GroupDataResponse;

    open spec fn header_spec(&self) -> CommandHeader {
        CommandHeader { write: false, group: STATS_GROUP, command: 0 }
    }

    open spec fn fields_spec(&self) -> Seq<(Seq<char>, Item)> {
        seq![("name"@, Item::Text(self.name@))]
    }

    fn header(&self) -> CommandHeader {
        CommandHeader { write: false, group: STATS_GROUP, command: 0 }
    }

    fn fields(&self) -> Vec<Field<'_>> {
        let mut fields: Vec<Field<'_>> = Vec::new();
        put(&mut fields, "name", FieldValue::Text(self.name));
        assert(entries(fields@) =~= self.fields_spec());
        fields
    }
}

/// Response for [`GroupData`] command
#[derive(Clone, Debug, PartialEq, Eq)]
pub struct GroupDataResponse {
    /// names and values of the statistics
    pub fields: HashMap<String, u64>,
}

/// Command that lists the statistics groups
#[derive(Clone, Debug, PartialEq, Eq)]
pub struct ListGroups;

impl McuMgrCommand for ListGroups {
    type Response = ListGroupsResponse;

    open spec fn header_spec(&self) -> CommandHeader {
        CommandHeader { write: false, group: STATS_GROUP, command: 1 }
    }

    open spec fn fields_spec(&self) -> Seq<(Seq<char>, Item)> {
        Seq::empty()
    }

    fn header(&self) -> CommandHeader {
        CommandHeader { write: false, group: STATS_GROUP, command: 1 }
    }

    fn fields(&self) -> Vec<Field<'_>> {
        let fields: Vec<Field<'_>> = Vec::new();
        assert(entries(fields@) =~= self.fields_spec());
        fields
    }
}

/// Response for [`ListGroups`] command
#[derive(Clone, Debug, PartialEq, Eq)]
pub struct ListGroupsResponse {
    /// names of the groups
    pub stat_list: Vec<String>,
}

} // verus!
