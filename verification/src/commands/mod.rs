//! The commands of the management protocol.

use crate::cbor::{encode_map, entries, map_bytes, Field, Item};
use crate::error::DataTooLargeError;
use vstd::prelude::*;

pub mod enumeration;
pub mod fs;
pub mod image;
pub mod laws;
pub mod os;
pub mod shell;
pub mod stats;
pub mod zephyr;

verus! {

/// What identifies a command in a frame.
#[derive(Clone, Copy, Debug, PartialEq, Eq, Structural)]
pub struct CommandHeader {
    /// Whether the command changes the device, instead of only reading from it
    pub write: bool,
    /// The command group
    pub group: u16,
    /// The command within its group
    pub command: u8,
}

/// A command that can be sent to the device.
pub trait McuMgrCommand {
    /// What the device answers
    type Response;

    /// The header of the command.
    spec fn header_spec(&self) -> CommandHeader;

    /// The arguments of the command, in the order in which they are sent.
    spec fn fields_spec(&self) -> Seq<(Seq<char>, Item)>;

    /// Returns the header of the command.
    fn header(&self) -> (h: CommandHeader)
        ensures
            h == self.header_spec(),
    ;

    /// Returns the arguments of the command.
    fn fields(&self) -> (f: Vec<Field<'_>>)
        ensures
            entries(f@) == self.fields_spec(),
    ;
}

/// A frame that is ready to be sent to the device.
#[derive(Clone, Debug, PartialEq, Eq)]
pub struct Request {
    /// The header of the command
    pub header: CommandHeader,
    /// The encoded arguments of the command
    pub payload: Vec<u8>,
    /// Whether to send the request again if the transport fails
    pub use_retries: bool,
}

impl Request {
    /// The request carries the given command.
    pub open spec fn carries<C: McuMgrCommand>(self, command: C) -> bool {
        &&& self.header == command.header_spec()
        &&& self.payload@ == map_bytes(command.fields_spec())
    }
}

/// Encodes a command.
pub fn request<C: McuMgrCommand>(command: &C, use_retries: bool) -> (r: Request)
    ensures
        r.carries(*command),
        r.use_retries == use_retries,
{
    let fields = command.fields();
    Request { header: command.header(), payload: encode_map(&fields), use_retries }
}

/// The size of the header in front of the payload of a frame.
pub const MGMT_HDR_SIZE: usize = 8;

/// How many bytes are kept free for the length of the data, if up to `estimated` bytes of
/// data fit into the frame.
pub open spec fn length_reserve(estimated: int) -> int {
    if estimated <= u8::MAX {
        1
    } else if estimated <= u16::MAX {
        2
    } else if estimated <= u32::MAX {
        4
    } else {
        8
    }
}

/// How many bytes of data fit into a frame, if the payload with a single byte of data takes
/// `size_with_one_byte` bytes; nothing if not even a single byte fits.
pub open spec fn data_capacity(smp_frame_size: int, size_with_one_byte: int) -> Option<int> {
    let estimated = smp_frame_size - MGMT_HDR_SIZE - (size_with_one_byte - 1);
    if estimated < 2 {
        None
    } else {
        Some(estimated - length_reserve(estimated))
    }
}

/// Computes how much data fits into a frame next to the other arguments of a command.
///
/// # Arguments
///
/// * `smp_frame_size` - The max allowed size of an SMP frame.
/// * `size_with_one_byte` - The size of the payload if it carries a single byte of data.
pub fn max_data_chunk_size(smp_frame_size: usize, size_with_one_byte: usize) -> (r: Result<
    usize,
    DataTooLargeError,
>)
    requires
        size_with_one_byte >= 1,
    ensures
        match data_capacity(smp_frame_size as int, size_with_one_byte as int) {
            Some(n) => r matches Ok(size) && size == n,
            None => r is Err,
        },
{
    let size_without_data: usize = size_with_one_byte - 1;
    if smp_frame_size < MGMT_HDR_SIZE {
        return Err(DataTooLargeError);
    }
    let payload_size: usize = smp_frame_size - MGMT_HDR_SIZE;
    if payload_size < size_without_data {
        return Err(DataTooLargeError);
    }
    let estimated_data_size: usize = payload_size - size_without_data;
    if estimated_data_size == 0 {
        return Err(DataTooLargeError);
    }
    let data_length_bytes: usize = if estimated_data_size <= u8::MAX as usize {
        1
    } else if estimated_data_size <= u16::MAX as usize {
        2
    } else if estimated_data_size <= u32::MAX as usize {
        4
    } else {
        8
    };
    // Remove data length entry from estimated data size
    let actual_data_size: usize = estimated_data_size - data_length_bytes;
    if actual_data_size == 0 {
        return Err(DataTooLargeError);
    }
    Ok(actual_data_size)
}

} // verus!
