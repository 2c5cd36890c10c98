//! The command that runs shell commands.

use super::{CommandHeader, McuMgrCommand};
use crate::cbor::{entries, put, Field, FieldValue, Item};
use vstd::prelude::*;

verus! {

/// The command group of the shell command.
pub const SHELL_GROUP: u16 = 9;

/// Shell command line execute command
#[derive(Clone, Debug, PartialEq, Eq)]
pub struct ShellCommandLineExecute<'a> {
    /// the command and its arguments
    pub argv: &'a [String],
}

impl<'a> McuMgrCommand for ShellCommandLineExecute<'a> {
    type Response = ShellCommandLineExecuteResponse;

    open spec fn header_spec(&self) -> CommandHeader {
        CommandHeader { write: true, group: SHELL_GROUP, command: 0 }
    }

    open spec fn fields_spec(&self) -> Seq<(Seq<char>, Item)> {
        seq![("argv"@, Item::TextList(self.argv@.map_values(|s: String| s@)))]
    }

    fn header(&self) -> CommandHeader {
        CommandHeader { write: true, group: SHELL_GROUP, command: 0 }
    }

    fn fields(&self) -> Vec<Field<'_>> {
        let mut fields: Vec<Field<'_>> = Vec::new();
        put(&mut fields, "argv", FieldValue::TextList(self.argv));
        assert(entries(fields@) =~= self.fields_spec());
        fields
    }
}

/// Response for [`ShellCommandLineExecute`] command
#[derive(Clone, Debug, PartialEq, Eq)]
pub struct ShellCommandLineExecuteResponse {
    /// what the command printed
    pub o: String,
    /// return code of the command
    pub ret: i32,
}

} // verus!
