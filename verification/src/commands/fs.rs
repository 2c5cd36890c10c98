//! The commands that manage files.

use super::{data_capacity, max_data_chunk_size, CommandHeader, McuMgrCommand, MGMT_HDR_SIZE};
use crate::cbor::{
    encode_map, entries, head_len, lemma_head_len, lemma_optional_len, lemma_pairs_concat,
    map_bytes, optional, put, put_optional, Field, FieldValue, Item,
};
use crate::error::DataTooLargeError;
use crate::hexadecimal::{encode_hex, hex_text, lemma_hex_text};
use crate::text::{
    digit, hex_digits, hex_limit, hex_number, law_hex_digits_read_back, push_hex,
};
use std::collections::HashMap;
use vstd::prelude::*;
use vstd::utf8::*;

verus! {

/// The command group of the file commands.
pub const FS_GROUP: u16 = 8;

/// [File Download](https://docs.zephyrproject.org/latest/services/device_mgmt/smp_groups/smp_group_8.html#file-download) command
#[derive(Clone, Debug, PartialEq, Eq)]
pub struct FileDownload<'a> {
    /// offset to start download at
    pub off: u64,
    /// absolute path to a file
    pub name: &'a str,
}

/// Response for [`FileDownload`] command
#[derive(Clone, Debug, PartialEq, Eq)]
pub struct FileDownloadResponse {
    /// offset the response is for
    pub off: u64,
    /// chunk of data read from file
    pub data: Vec<u8>,
    /// length of file, this field is only mandatory when “off” is 0
    pub len: Option<u64>,
}

impl<'a> McuMgrCommand for FileDownload<'a> {
    type Response = FileDownloadResponse;

    open spec fn header_spec(&self) -> CommandHeader {
        CommandHeader { write: false, group: FS_GROUP, command: 0 }
    }

    open spec fn fields_spec(&self) -> Seq<(Seq<char>, Item)> {
        seq![("off"@, Item::Unsigned(self.off)), ("name"@, Item::Text(self.name@))]
    }

    fn header(&self) -> CommandHeader {
        CommandHeader { write: false, group: FS_GROUP, command: 0 }
    }

    fn fields(&self) -> Vec<Field<'_>> {
        let mut fields: Vec<Field<'_>> = Vec::new();
        put(&mut fields, "off", FieldValue::Unsigned(self.off));
        put(&mut fields, "name", FieldValue::Text(self.name));
        assert(entries(fields@) =~= self.fields_spec());
        fields
    }
}

/// [File Upload](https://docs.zephyrproject.org/latest/services/device_mgmt/smp_groups/smp_group_8.html#file-upload) command
#[derive(Clone, Debug, PartialEq, Eq)]
pub struct FileUpload<'a, 'b> {
    /// offset to start/continue upload at
    pub off: u64,
    /// chunk of data to write to the file
    pub data: &'a [u8],
    /// absolute path to a file
    pub name: &'b str,
    /// length of file, this field is only mandatory when “off” is 0
    pub len: Option<u64>,
}

/// Response for [`FileUpload`] command
#[derive(Clone, Debug, PartialEq, Eq)]
pub struct FileUploadResponse {
    /// offset of last successfully written data
    pub off: u64,
}

impl<'a, 'b> McuMgrCommand for FileUpload<'a, 'b> {
    type Response = FileUploadResponse;

    open spec fn header_spec(&self) -> CommandHeader {
        CommandHeader { write: true, group: FS_GROUP, command: 0 }
    }

    open spec fn fields_spec(&self) -> Seq<(Seq<char>, Item)> {
        seq![
            ("off"@, Item::Unsigned(self.off)),
            ("data"@, Item::Bytes(self.data@)),
            ("name"@, Item::Text(self.name@)),
        ] + optional(
            "len"@,
            match self.len {
                Some(len) => Some(Item::Unsigned(len)),
                None => None,
            },
        )
    }

    fn header(&self) -> CommandHeader {
        CommandHeader { write: true, group: FS_GROUP, command: 0 }
    }

    fn fields(&self) -> Vec<Field<'_>> {
        let mut fields: Vec<Field<'_>> = Vec::new();
        put(&mut fields, "off", FieldValue::Unsigned(self.off));
        put(&mut fields, "data", FieldValue::Bytes(self.data));
        put(&mut fields, "name", FieldValue::Text(self.name));
        let len = match self.len {
            Some(len) => Some(FieldValue::Unsigned(len)),
            None => None,
        };
        put_optional(&mut fields, "len", len);
        assert(entries(fields@) =~= self.fields_spec());
        fields
    }
}

/// The size of an encoded [`FileUpload`] command.
pub open spec fn file_upload_len(command: FileUpload<'_, '_>) -> int {
    let name_len = encode_utf8(command.name@).len();
    1int + 4 + head_len(command.off as nat) + 5 + head_len(command.data@.len()) + command.data@.len()
        + 5 + head_len(name_len) + name_len + (match command.len {
        Some(len) => 4 + head_len(len as nat),
        None => 0,
    })
}

pub proof fn lemma_file_upload_len(command: FileUpload<'_, '_>)
    ensures
        map_bytes(command.fields_spec()).len() == file_upload_len(command),
{
    reveal_strlit("off");
    reveal_strlit("data");
    reveal_strlit("name");
    reveal_strlit("len");
    let off = optional("off"@, Some(Item::Unsigned(command.off)));
    let data = optional("data"@, Some(Item::Bytes(command.data@)));
    let name = optional("name"@, Some(Item::Text(command.name@)));
    let len = match command.len {
        Some(len) => Some(Item::Unsigned(len)),
        None => None,
    };
    assert(command.fields_spec() =~= off + data + name + optional("len"@, len));
    lemma_pairs_concat(off, data);
    lemma_pairs_concat(off + data, name);
    lemma_pairs_concat(off + data + name, optional("len"@, len));
    lemma_optional_len("off"@, Some(Item::Unsigned(command.off)));
    lemma_optional_len("data"@, Some(Item::Bytes(command.data@)));
    lemma_optional_len("name"@, Some(Item::Text(command.name@)));
    lemma_optional_len("len"@, len);
    lemma_head_len(5, command.fields_spec().len());
    lemma_head_len(0, command.off as nat);
    lemma_head_len(2, command.data@.len());
    lemma_head_len(3, encode_utf8(command.name@).len());
    if command.len is Some {
        lemma_head_len(0, command.len->0 as nat);
    }
}

/// The size of the largest [`FileUpload`] command for a file name that carries a single byte
/// of data.
pub open spec fn file_upload_size_with_one_byte(filename: Seq<char>) -> int {
    let name_len = encode_utf8(filename).len();
    39int + head_len(name_len) + name_len
}

/// Computes how large [`FileUpload::data`] is allowed to be.
///
/// # Arguments
///
/// * `smp_frame_size`  - The max allowed size of an SMP frame.
/// * `filename`        - The filename we transfer to.
pub fn file_upload_max_data_chunk_size(smp_frame_size: usize, filename: &str) -> (r: Result<
    usize,
    DataTooLargeError,
>)
    ensures
        match data_capacity(smp_frame_size as int, file_upload_size_with_one_byte(filename@)) {
            Some(n) => r matches Ok(size) && size == n,
            None => r is Err,
        },
{
    let command = FileUpload { off: u64::MAX, name: filename, data: &[0u8], len: Some(u64::MAX) };
    let payload = encode_map(&command.fields());
    proof {
        lemma_file_upload_len(command);
    }
    max_data_chunk_size(smp_frame_size, payload.len())
}

/// An upload command that carries no more data than [`file_upload_max_data_chunk_size`]
/// allows for its file name fits into a frame, whatever its other arguments are.
pub proof fn law_file_upload_fits(smp_frame_size: usize, command: FileUpload<'_, '_>)
    requires
        data_capacity(
            smp_frame_size as int,
            file_upload_size_with_one_byte(command.name@),
        ) matches Some(n) && command.data@.len() <= n,
    ensures
        MGMT_HDR_SIZE + map_bytes(command.fields_spec()).len() <= smp_frame_size,
{
    lemma_file_upload_len(command);
}

/// The largest upload command with as much data as [`file_upload_max_data_chunk_size`] allows
/// leaves at most two bytes of the frame unused, as long as the frame is smaller than four
/// gigabytes, and at most four bytes otherwise.
pub proof fn law_file_upload_fills_frame(smp_frame_size: usize, command: FileUpload<'_, '_>)
    requires
        command.len == Some(u64::MAX),
        command.off == u64::MAX,
        data_capacity(
            smp_frame_size as int,
            file_upload_size_with_one_byte(command.name@),
        ) == Some(command.data@.len() as int),
    ensures
        smp_frame_size - 4 <= MGMT_HDR_SIZE + map_bytes(command.fields_spec()).len(),
        smp_frame_size <= u32::MAX ==> smp_frame_size - 2 <= MGMT_HDR_SIZE + map_bytes(
            command.fields_spec(),
        ).len(),
{
    lemma_file_upload_len(command);
}

/// [File Status](https://docs.zephyrproject.org/latest/services/device_mgmt/smp_groups/smp_group_8.html#file-status) command
#[derive(Clone, Debug, PartialEq, Eq)]
pub struct FileStatus<'a> {
    /// absolute path to a file
    pub name: &'a str,
}

/// Response for [`FileStatus`] command
#[derive(Clone, Debug, PartialEq, Eq)]
pub struct FileStatusResponse {
    /// length of file (in bytes)
    pub len: u64,
}

impl<'a> McuMgrCommand for FileStatus<'a> {
    type Response = FileStatusResponse;

    open spec fn header_spec(&self) -> CommandHeader {
        CommandHeader { write: false, group: FS_GROUP, command: 1 }
    }

    open spec fn fields_spec(&self) -> Seq<(Seq<char>, Item)> {
        seq![("name"@, Item::Text(self.name@))]
    }

    fn header(&self) -> CommandHeader {
        CommandHeader { write: false, group: FS_GROUP, command: 1 }
    }

    fn fields(&self) -> Vec<Field<'_>> {
        let mut fields: Vec<Field<'_>> = Vec::new();
        put(&mut fields, "name", FieldValue::Text(self.name));
        assert(entries(fields@) =~= self.fields_spec());
        fields
    }
}

/// [File Hash/Checksum](https://docs.zephyrproject.org/latest/services/device_mgmt/smp_groups/smp_group_8.html#file-hash-checksum) command
#[derive(Clone, Debug, PartialEq, Eq)]
pub struct FileChecksum<'a, 'b> {
    /// absolute path to a file
    pub name: &'a str,
    /// type of hash/checksum to perform or None to use default
    pub algorithm: Option<&'b str>,
    /// offset to start hash/checksum calculation at
    pub off: u64,
    /// maximum length of data to read from file to generate hash/checksum with (optional, full file size if None)
    pub len: Option<u64>,
}

/// Response for [`FileChecksum`] command
#[derive(Debug, PartialEq, Eq)]
pub struct FileChecksumResponse {
    /// type of hash/checksum that was performed
    pub algorithm: String,
    /// offset that hash/checksum calculation started at
    pub off: u64,
    /// length of input data used for hash/checksum generation (in bytes)
    pub len: u64,
    /// output hash/checksum
    pub output: FileChecksumData,
}

impl<'a, 'b> McuMgrCommand for FileChecksum<'a, 'b> {
    type Response = FileChecksumResponse;

    open spec fn header_spec(&self) -> CommandHeader {
        CommandHeader { write: false, group: FS_GROUP, command: 2 }
    }

    open spec fn fields_spec(&self) -> Seq<(Seq<char>, Item)> {
        seq![("name"@, Item::Text(self.name@))] + optional(
            "type"@,
            match self.algorithm {
                Some(algorithm) => Some(Item::Text(algorithm@)),
                None => None,
            },
        ) + optional(
            "off"@,
            if self.off == 0 {
                None
            } else {
                Some(Item::Unsigned(self.off))
            },
        ) + optional(
            "len"@,
            match self.len {
                Some(len) => Some(Item::Unsigned(len)),
                None => None,
            },
        )
    }

    fn header(&self) -> CommandHeader {
        CommandHeader { write: false, group: FS_GROUP, command: 2 }
    }

    fn fields(&self) -> Vec<Field<'_>> {
        let mut fields: Vec<Field<'_>> = Vec::new();
        put(&mut fields, "name", FieldValue::Text(self.name));
        let algorithm = match self.algorithm {
            Some(algorithm) => Some(FieldValue::Text(algorithm)),
            None => None,
        };
        put_optional(&mut fields, "type", algorithm);
        let off = if self.off == 0 {
            None
        } else {
            Some(FieldValue::Unsigned(self.off))
        };
        put_optional(&mut fields, "off", off);
        let len = match self.len {
            Some(len) => Some(FieldValue::Unsigned(len)),
            None => None,
        };
        put_optional(&mut fields, "len", len);
        assert(entries(fields@) =~= self.fields_spec());
        fields
    }
}

/// Hash data of [`FileChecksumResponse`]
#[derive(Debug, PartialEq, Eq)]
pub enum FileChecksumData {
    /// hash bytes
    Hash(Box<[u8]>),
    /// checksum integer
    Checksum(u32),
}

/// Trusted: `clone` of a `Box<[u8]>` makes a box that holds the same bytes.
#[verifier::external_body]
fn clone_bytes(data: &Box<[u8]>) -> (r: Box<[u8]>)
    ensures
        r@ == data@,
{
    data.clone()
}

impl FileChecksumData {
    /// The two hold the same hash or checksum.
    pub open spec fn same(self, other: FileChecksumData) -> bool {
        match (self, other) {
            (FileChecksumData::Hash(a), FileChecksumData::Hash(b)) => a@ == b@,
            (FileChecksumData::Checksum(a), FileChecksumData::Checksum(b)) => a == b,
            _ => false,
        }
    }
}

impl Clone for FileChecksumData {
    fn clone(&self) -> (r: FileChecksumData)
        ensures
            r.same(*self),
    {
        match self {
            FileChecksumData::Hash(data) => FileChecksumData::Hash(clone_bytes(data)),
            FileChecksumData::Checksum(value) => FileChecksumData::Checksum(*value),
        }
    }
}

impl Clone for FileChecksumResponse {
    fn clone(&self) -> (r: FileChecksumResponse)
        ensures
            r.algorithm@ == self.algorithm@,
            r.off == self.off,
            r.len == self.len,
            r.output.same(self.output),
    {
        FileChecksumResponse {
            algorithm: self.algorithm.clone(),
            off: self.off,
            len: self.len,
            output: self.output.clone(),
        }
    }
}

impl FileChecksumData {
    /// Convert to hex string
    pub fn hex(&self) -> (s: String)
        ensures
            match *self {
                FileChecksumData::Hash(data) => s@ == hex_text(data@),
                FileChecksumData::Checksum(value) => s@ == hex_digits(value as nat, 8),
            },
    {
        match self {
            FileChecksumData::Hash(data) => encode_hex(data),
            FileChecksumData::Checksum(value) => {
                let mut s = String::new();
                push_hex(&mut s, *value, 8);
                assert(s@ =~= hex_digits(*value as nat, 8));
                s
            },
        }
    }
}

/// [Supported file hash/checksum types](https://docs.zephyrproject.org/latest/services/device_mgmt/smp_groups/smp_group_8.html#supported-file-hash-checksum-types) command
#[derive(Clone, Debug, PartialEq, Eq)]
pub struct SupportedFileChecksumTypes;

/// Response for [`SupportedFileChecksumTypes`] command
#[derive(Clone, Debug, PartialEq, Eq)]
pub struct SupportedFileChecksumTypesResponse {
    /// names and properties of the hash/checksum types
    pub types: HashMap<String, FileChecksumProperties>,
}

impl McuMgrCommand for SupportedFileChecksumTypes {
    type Response = SupportedFileChecksumTypesResponse;

    open spec fn header_spec(&self) -> CommandHeader {
        CommandHeader { write: false, group: FS_GROUP, command: 3 }
    }

    open spec fn fields_spec(&self) -> Seq<(Seq<char>, Item)> {
        Seq::empty()
    }

    fn header(&self) -> CommandHeader {
        CommandHeader { write: false, group: FS_GROUP, command: 3 }
    }

    fn fields(&self) -> Vec<Field<'_>> {
        let fields: Vec<Field<'_>> = Vec::new();
        assert(entries(fields@) =~= self.fields_spec());
        fields
    }
}

/// Data format of the hash/checksum type
#[derive(Debug, Copy, Clone, PartialEq, Eq, Structural)]
pub enum FileChecksumDataFormat {
    /// Data is a number
    Numerical,
    /// Data is a bytes array
    ByteArray,
}

impl FileChecksumDataFormat {
    /// The format that a number in a response stands for, if it stands for any.
    pub fn from_repr(value: u8) -> (r: Option<FileChecksumDataFormat>)
        ensures
            r == match value {
                0u8 => Some(FileChecksumDataFormat::Numerical),
                1u8 => Some(FileChecksumDataFormat::ByteArray),
                _ => None,
            },
    {
        match value {
            0 => Some(FileChecksumDataFormat::Numerical),
            1 => Some(FileChecksumDataFormat::ByteArray),
            _ => None,
        }
    }

    /// The name of the format.
    pub fn name(&self) -> (s: &'static str)
        ensures
            s@ == match *self {
                FileChecksumDataFormat::Numerical => "Numerical"@,
                FileChecksumDataFormat::ByteArray => "ByteArray"@,
            },
    {
        match self {
            FileChecksumDataFormat::Numerical => "Numerical",
            FileChecksumDataFormat::ByteArray => "ByteArray",
        }
    }
}

/// Properties of a hash/checksum algorithm
#[derive(Clone, Debug, PartialEq, Eq)]
pub struct FileChecksumProperties {
    /// format that the hash/checksum returns
    pub format: FileChecksumDataFormat,
    /// size (in bytes) of output hash/checksum response
    pub size: u32,
}

/// [File Close](https://docs.zephyrproject.org/latest/services/device_mgmt/smp_groups/smp_group_8.html#file-close) command
#[derive(Clone, Debug, PartialEq, Eq)]
pub struct FileClose;

/// Response for [`FileClose`] command
#[derive(Clone, Debug, PartialEq, Eq)]
pub struct FileCloseResponse;

impl Default for FileCloseResponse {
    fn default() -> (r: FileCloseResponse)
        ensures
            r == FileCloseResponse,
    {
        FileCloseResponse
    }
}

impl McuMgrCommand for FileClose {
    type Response = FileCloseResponse;

    open spec fn header_spec(&self) -> CommandHeader {
        CommandHeader { write: true, group: FS_GROUP, command: 4 }
    }

    open spec fn fields_spec(&self) -> Seq<(Seq<char>, Item)> {
        Seq::empty()
    }

    fn header(&self) -> CommandHeader {
        CommandHeader { write: true, group: FS_GROUP, command: 4 }
    }

    fn fields(&self) -> Vec<Field<'_>> {
        let fields: Vec<Field<'_>> = Vec::new();
        assert(entries(fields@) =~= self.fields_spec());
        fields
    }
}

/// A hash is written with two digits for every byte, the more significant one first. A checksum
/// is written with eight digits that read back as the same number.
pub proof fn law_checksum_data_is_written(data: FileChecksumData, s: String)
    requires
        call_ensures(FileChecksumData::hex, (&data,), s),
    ensures
        data matches FileChecksumData::Hash(bytes) ==> {
            &&& s@.len() == 2 * bytes@.len()
            &&& forall|i: int|
                0 <= i < bytes@.len() ==> s@[2 * i] == digit(#[trigger] bytes@[i] as nat / 16)
                    && s@[2 * i + 1] == digit(bytes@[i] as nat % 16)
        },
        data matches FileChecksumData::Checksum(value) ==> s@.len() == 8 && hex_number(s@) == Some(
            value as nat,
        ),
{
    match data {
        FileChecksumData::Hash(bytes) => {
            lemma_hex_text(bytes@);
        },
        FileChecksumData::Checksum(value) => {
            reveal_with_fuel(hex_limit, 9);
            law_hex_digits_read_back(value as nat, 8);
        },
    }
}

/// The number zero stands for numerical checksums, one stands for byte arrays, and no other
/// number stands for anything. Both formats have a name.
pub proof fn law_checksum_format_is_known(
    value: u8,
    r: Option<FileChecksumDataFormat>,
    name: &'static str,
)
    requires
        call_ensures(FileChecksumDataFormat::from_repr, (value,), r),
        r is Some ==> call_ensures(FileChecksumDataFormat::name, (&r->0,), name),
    ensures
        value == 0 ==> name@ == "Numerical"@,
        value == 1 ==> name@ == "ByteArray"@,
        r == Some(FileChecksumDataFormat::Numerical) <==> value == 0,
        r == Some(FileChecksumDataFormat::ByteArray) <==> value == 1,
        r is None <==> value >= 2,
{
}

/// A copy of a response holds the same values.
pub proof fn law_checksum_response_is_copied(
    response: FileChecksumResponse,
    copy: FileChecksumResponse,
)
    requires
        call_ensures(FileChecksumResponse::clone, (&response,), copy),
    ensures
        copy.algorithm@ == response.algorithm@,
        copy.off == response.off,
        copy.len == response.len,
        response.output matches FileChecksumData::Checksum(value) ==> copy.output
            == FileChecksumData::Checksum(value),
        response.output matches FileChecksumData::Hash(bytes) ==> (
        copy.output matches FileChecksumData::Hash(copied) && copied@ == bytes@),
{
}

} // verus!
