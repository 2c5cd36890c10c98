//! The commands that manage firmware images.

use super::{data_capacity, max_data_chunk_size, CommandHeader, McuMgrCommand, MGMT_HDR_SIZE};
use crate::cbor::{
    encode_map, entries, head_len, lemma_head_len, lemma_optional_len, lemma_pairs_concat,
    map_bytes, optional, put, put_optional, Field, FieldValue, Item,
};
use crate::error::DataTooLargeError;
use vstd::prelude::*;

verus! {

/// The state of an image slot
#[derive(Clone, Debug, PartialEq, Eq)]
pub struct ImageState {
    /// image number
    pub image: u32,
    /// slot number within “image”
    pub slot: u32,
    /// string representing image version, as set with `imgtool`
    pub version: String,
    /// SHA256 hash of the image header and body
    ///
    /// Note that this will not be the same as the SHA256 of the whole file, it is the field in the
    /// MCUboot TLV section that contains a hash of the data which is used for signature
    /// verification purposes.
    pub hash: Option<[u8; 32]>,
    /// true if image has bootable flag set
    pub bootable: bool,
    /// true if image is set for next swap
    pub pending: bool,
    /// true if image has been confirmed
    pub confirmed: bool,
    /// true if image is currently active application
    pub active: bool,
    /// true if image is to stay in primary slot after the next boot
    pub permanent: bool,
}

/// The command group of the image commands.
pub const IMAGE_GROUP: u16 = 1;

/// [Get Image State](https://docs.zephyrproject.org/latest/services/device_mgmt/smp_groups/smp_group_1.html#get-state-of-images-request) command
#[derive(Clone, Debug, PartialEq, Eq)]
pub struct GetImageState;

/// Response for [`GetImageState`] and [`SetImageState`] commands
#[derive(Clone, Debug, PartialEq, Eq)]
pub struct ImageStateResponse {
    /// List of all images and their state
    pub images: Vec<ImageState>,
}

impl McuMgrCommand for GetImageState {
    type Response = ImageStateResponse;

    open spec fn header_spec(&self) -> CommandHeader {
        CommandHeader { write: false, group: IMAGE_GROUP, command: 0 }
    }

    open spec fn fields_spec(&self) -> Seq<(Seq<char>, Item)> {
        Seq::empty()
    }

    fn header(&self) -> CommandHeader {
        CommandHeader { write: false, group: IMAGE_GROUP, command: 0 }
    }

    fn fields(&self) -> Vec<Field<'_>> {
        let fields: Vec<Field<'_>> = Vec::new();
        assert(entries(fields@) =~= self.fields_spec());
        fields
    }
}

/// [Set Image State](https://docs.zephyrproject.org/latest/services/device_mgmt/smp_groups/smp_group_1.html#set-state-of-image-request) command
#[derive(Clone, Debug, PartialEq, Eq)]
pub struct SetImageState<'a> {
    /// Hash of the image header and body
    ///
    /// If `confirm` is `true` this can be omitted, which will select the currently running image.
    ///
    /// Note that this will not be the same as the SHA256 of the whole file, it is the field in the
    /// MCUboot TLV section that contains a hash of the data which is used for signature
    /// verification purposes.
    pub hash: Option<&'a [u8]>,
    /// If true, mark the given image as 'confirmed'.
    ///
    /// If false, perform a test boot with the given image
    /// and revert upon hard reset.
    pub confirm: bool,
}

/// The header of a [`SetImageState`] command.
pub open spec fn set_state_header() -> CommandHeader {
    CommandHeader { write: true, group: IMAGE_GROUP, command: 0 }
}

/// The arguments of a [`SetImageState`] command.
pub open spec fn set_state_fields(hash: Option<Seq<u8>>, confirm: bool) -> Seq<(Seq<char>, Item)> {
    optional(
        "hash"@,
        match hash {
            Some(hash) => Some(Item::Bytes(hash)),
            None => None,
        },
    ) + seq![("confirm"@, Item::Flag(confirm))]
}

impl<'a> McuMgrCommand for SetImageState<'a> {
    type Response = ImageStateResponse;

    open spec fn header_spec(&self) -> CommandHeader {
        set_state_header()
    }

    open spec fn fields_spec(&self) -> Seq<(Seq<char>, Item)> {
        set_state_fields(
            match self.hash {
                Some(hash) => Some(hash@),
                None => None,
            },
            self.confirm,
        )
    }

    fn header(&self) -> CommandHeader {
        CommandHeader { write: true, group: IMAGE_GROUP, command: 0 }
    }

    fn fields(&self) -> Vec<Field<'_>> {
        let mut fields: Vec<Field<'_>> = Vec::new();
        let hash = match self.hash {
            Some(hash) => Some(FieldValue::Bytes(hash)),
            None => None,
        };
        put_optional(&mut fields, "hash", hash);
        put(&mut fields, "confirm", FieldValue::Flag(self.confirm));
        assert(entries(fields@) =~= self.fields_spec());
        fields
    }
}

/// [Image Upload](https://docs.zephyrproject.org/latest/services/device_mgmt/smp_groups/smp_group_1.html#image-upload) command
#[derive(Clone, Debug, PartialEq, Eq)]
pub struct ImageUpload<'a, 'b> {
    /// optional image number, it does not have to appear in request at all, in which case it is assumed to be 0.
    ///
    /// Should only be present when “off” is 0.
    pub image: Option<u32>,
    /// optional length of an image.
    ///
    /// Must appear when “off” is 0.
    pub len: Option<u64>,
    /// offset of image chunk the request carries.
    pub off: u64,
    /// SHA256 hash of an upload; this is used to identify an upload session
    /// (e.g. to allow MCUmgr to continue a broken session), and for image verification purposes.
    /// This must be a full SHA256 hash of the whole image being uploaded, or not included if the hash
    /// is not available (in which case, upload session continuation and image verification functionality will be unavailable).
    ///
    /// Should only be present when “off” is 0.
    pub sha: Option<&'a [u8; 32]>,
    /// image data to write at provided offset.
    pub data: &'b [u8],
    /// optional flag that states that only upgrade should be allowed, so if the version of uploaded software
    /// is not higher than already on a device, the image upload will be rejected.
    ///
    /// Should only be present when “off” is 0.
    pub upgrade: Option<bool>,
}

/// Response for [`ImageUpload`] command
#[derive(Clone, Debug, PartialEq, Eq)]
pub struct ImageUploadResponse {
    /// offset of last successfully written byte of update.
    pub off: u64,
    /// indicates if the uploaded data successfully matches the provided SHA256 hash or not
    pub matched: Option<bool>,
}

impl<'a, 'b> ImageUpload<'a, 'b> {
    /// The image number, as it is sent.
    pub open spec fn image_field(self) -> Seq<(Seq<char>, Item)> {
        optional(
            "image"@,
            match self.image {
                Some(image) => Some(Item::Unsigned(image as u64)),
                None => None,
            },
        )
    }

    /// The length of the image, as it is sent.
    pub open spec fn len_field(self) -> Seq<(Seq<char>, Item)> {
        optional(
            "len"@,
            match self.len {
                Some(len) => Some(Item::Unsigned(len)),
                None => None,
            },
        )
    }

    /// The hash of the image, as it is sent.
    pub open spec fn sha_field(self) -> Seq<(Seq<char>, Item)> {
        optional(
            "sha"@,
            match self.sha {
                Some(sha) => Some(Item::Bytes(sha@)),
                None => None,
            },
        )
    }

    /// The upgrade flag, as it is sent.
    pub open spec fn upgrade_field(self) -> Seq<(Seq<char>, Item)> {
        optional(
            "upgrade"@,
            match self.upgrade {
                Some(upgrade) => Some(Item::Flag(upgrade)),
                None => None,
            },
        )
    }
}

impl<'a, 'b> McuMgrCommand for ImageUpload<'a, 'b> {
    type Response = ImageUploadResponse;

    open spec fn header_spec(&self) -> CommandHeader {
        CommandHeader { write: true, group: IMAGE_GROUP, command: 1 }
    }

    open spec fn fields_spec(&self) -> Seq<(Seq<char>, Item)> {
        self.image_field() + self.len_field() + seq![("off"@, Item::Unsigned(self.off))]
            + self.sha_field() + seq![("data"@, Item::Bytes(self.data@))] + self.upgrade_field()
    }

    fn header(&self) -> CommandHeader {
        CommandHeader { write: true, group: IMAGE_GROUP, command: 1 }
    }

    fn fields(&self) -> Vec<Field<'_>> {
        let mut fields: Vec<Field<'_>> = Vec::new();
        let image = match self.image {
            Some(image) => Some(FieldValue::Unsigned(image as u64)),
            None => None,
        };
        put_optional(&mut fields, "image", image);
        let len = match self.len {
            Some(len) => Some(FieldValue::Unsigned(len)),
            None => None,
        };
        put_optional(&mut fields, "len", len);
        put(&mut fields, "off", FieldValue::Unsigned(self.off));
        let sha = match self.sha {
            Some(sha) => Some(FieldValue::Bytes(sha.as_slice())),
            None => None,
        };
        put_optional(&mut fields, "sha", sha);
        put(&mut fields, "data", FieldValue::Bytes(self.data));
        let upgrade = match self.upgrade {
            Some(upgrade) => Some(FieldValue::Flag(upgrade)),
            None => None,
        };
        put_optional(&mut fields, "upgrade", upgrade);
        assert(entries(fields@) =~= self.fields_spec());
        fields
    }
}

/// The size of an encoded [`ImageUpload`] command.
pub open spec fn image_upload_len(command: ImageUpload<'_, '_>) -> int {
    1 + (match command.image {
        Some(image) => 6 + head_len(image as nat),
        None => 0,
    }) + (match command.len {
        Some(len) => 4 + head_len(len as nat),
        None => 0,
    }) + 4 + head_len(command.off as nat) + (if command.sha is Some {
        38int
    } else {
        0
    }) + 5 + head_len(command.data@.len()) + command.data@.len() + (if command.upgrade is Some {
        9int
    } else {
        0
    })
}

pub proof fn lemma_image_upload_len(command: ImageUpload<'_, '_>)
    ensures
        map_bytes(command.fields_spec()).len() == image_upload_len(command),
{
    reveal_strlit("image");
    reveal_strlit("len");
    reveal_strlit("off");
    reveal_strlit("sha");
    reveal_strlit("data");
    reveal_strlit("upgrade");
    let off = seq![("off"@, Item::Unsigned(command.off))];
    let data = seq![("data"@, Item::Bytes(command.data@))];
    let a = command.image_field();
    let b = a + command.len_field();
    let c = b + off;
    let d = c + command.sha_field();
    let e = d + data;
    lemma_pairs_concat(a, command.len_field());
    lemma_pairs_concat(b, off);
    lemma_pairs_concat(c, command.sha_field());
    lemma_pairs_concat(d, data);
    lemma_pairs_concat(e, command.upgrade_field());
    lemma_optional_len("image"@, match command.image {
        Some(image) => Some(Item::Unsigned(image as u64)),
        None => None,
    });
    lemma_optional_len("len"@, match command.len {
        Some(len) => Some(Item::Unsigned(len)),
        None => None,
    });
    lemma_optional_len("off"@, Some(Item::Unsigned(command.off)));
    lemma_optional_len("sha"@, match command.sha {
        Some(sha) => Some(Item::Bytes(sha@)),
        None => None,
    });
    lemma_optional_len("data"@, Some(Item::Bytes(command.data@)));
    lemma_optional_len("upgrade"@, match command.upgrade {
        Some(upgrade) => Some(Item::Flag(upgrade)),
        None => None,
    });
    lemma_head_len(5, command.fields_spec().len());
    lemma_head_len(0, command.off as nat);
    lemma_head_len(2, command.data@.len());
    lemma_head_len(2, 32);
    if command.image is Some {
        lemma_head_len(0, command.image->0 as nat);
    }
    if command.len is Some {
        lemma_head_len(0, command.len->0 as nat);
    }
}

/// The size of the largest [`ImageUpload`] command that carries a single byte of data.
pub const IMAGE_UPLOAD_SIZE_WITH_ONE_BYTE: usize = 92;

/// Computes how large [`ImageUpload::data`] is allowed to be.
///
/// # Arguments
///
/// * `smp_frame_size`  - The max allowed size of an SMP frame.
///
pub fn image_upload_max_data_chunk_size(smp_frame_size: usize) -> (r: Result<
    usize,
    DataTooLargeError,
>)
    ensures
        match data_capacity(smp_frame_size as int, IMAGE_UPLOAD_SIZE_WITH_ONE_BYTE as int) {
            Some(n) => r matches Ok(size) && size == n,
            None => r is Err,
        },
{
    let command = ImageUpload {
        off: u64::MAX,
        data: &[0u8],
        len: Some(u64::MAX),
        image: Some(u32::MAX),
        sha: Some(&[42u8; 32]),
        upgrade: Some(true),
    };
    let payload = encode_map(&command.fields());
    proof {
        lemma_image_upload_len(command);
    }
    max_data_chunk_size(smp_frame_size, payload.len())
}

/// An upload command that carries no more data than [`image_upload_max_data_chunk_size`]
/// allows fits into a frame, whatever its other arguments are.
pub proof fn law_image_upload_fits(smp_frame_size: usize, command: ImageUpload<'_, '_>)
    requires
        data_capacity(smp_frame_size as int, IMAGE_UPLOAD_SIZE_WITH_ONE_BYTE as int) matches Some(n)
            && command.data@.len() <= n,
    ensures
        MGMT_HDR_SIZE + map_bytes(command.fields_spec()).len() <= smp_frame_size,
{
    lemma_image_upload_len(command);
}

/// The largest upload command with as much data as [`image_upload_max_data_chunk_size`] allows
/// leaves at most two bytes of the frame unused, as long as the frame is smaller than four
/// gigabytes, and at most four bytes otherwise.
pub proof fn law_image_upload_fills_frame(smp_frame_size: usize, command: ImageUpload<'_, '_>)
    requires
        command.image == Some(u32::MAX),
        command.len == Some(u64::MAX),
        command.off == u64::MAX,
        command.sha is Some,
        command.upgrade is Some,
        data_capacity(smp_frame_size as int, IMAGE_UPLOAD_SIZE_WITH_ONE_BYTE as int) == Some(
            command.data@.len() as int,
        ),
    ensures
        smp_frame_size - 4 <= MGMT_HDR_SIZE + map_bytes(command.fields_spec()).len(),
        smp_frame_size <= u32::MAX ==> smp_frame_size - 2 <= MGMT_HDR_SIZE + map_bytes(
            command.fields_spec(),
        ).len(),
{
    lemma_image_upload_len(command);
}

/// [Image Erase](https://docs.zephyrproject.org/latest/services/device_mgmt/smp_groups/smp_group_1.html#image-erase) command
#[derive(Clone, Debug, PartialEq, Eq)]
pub struct ImageErase {
    /// slot number; it does not have to appear in the request at all, in which case it is assumed to be 1
    pub slot: Option<u32>,
}

/// Response for [`ImageErase`] command
#[derive(Clone, Debug, PartialEq, Eq)]
pub struct ImageEraseResponse;

impl Default for ImageEraseResponse {
    fn default() -> (r: ImageEraseResponse)
        ensures
            r == ImageEraseResponse,
    {
        ImageEraseResponse
    }
}

impl McuMgrCommand for ImageErase {
    type Response = ImageEraseResponse;

    open spec fn header_spec(&self) -> CommandHeader {
        CommandHeader { write: true, group: IMAGE_GROUP, command: 5 }
    }

    open spec fn fields_spec(&self) -> Seq<(Seq<char>, Item)> {
        optional(
            "slot"@,
            match self.slot {
                Some(slot) => Some(Item::Unsigned(slot as u64)),
                None => None,
            },
        )
    }

    fn header(&self) -> CommandHeader {
        CommandHeader { write: true, group: IMAGE_GROUP, command: 5 }
    }

    fn fields(&self) -> Vec<Field<'_>> {
        let mut fields: Vec<Field<'_>> = Vec::new();
        let slot = match self.slot {
            Some(slot) => Some(FieldValue::Unsigned(slot as u64)),
            None => None,
        };
        put_optional(&mut fields, "slot", slot);
        assert(entries(fields@) =~= self.fields_spec());
        fields
    }
}

/// [Slot Info](https://docs.zephyrproject.org/latest/services/device_mgmt/smp_groups/smp_group_1.html#slot-info) command
#[derive(Clone, Debug, PartialEq, Eq)]
pub struct SlotInfo;

/// Information about a firmware image type returned by [`SlotInfo`]
#[derive(Clone, Debug, PartialEq, Eq)]
pub struct SlotInfoImage {
    /// The number of the image
    pub image: u32,
    /// Slots available for the image
    pub slots: Vec<SlotInfoImageSlot>,
    /// Maximum size of an application that can be uploaded to that image number
    pub max_image_size: Option<u64>,
}

/// Information about a slot that can hold a firmware image
#[derive(Clone, Debug, PartialEq, Eq)]
pub struct SlotInfoImageSlot {
    /// The slot inside the image being enumerated
    pub slot: u32,
    /// The size of the slot
    pub size: u64,
    /// Specifies the image ID that can be used by external tools to upload an image to that slot
    pub upload_image_id: Option<u32>,
}

/// Response for [`SlotInfo`] command
#[derive(Clone, Debug, PartialEq, Eq)]
pub struct SlotInfoResponse {
    /// List of all image slot collections on the device
    pub images: Vec<SlotInfoImage>,
}

impl McuMgrCommand for SlotInfo {
    type Response = SlotInfoResponse;

    open spec fn header_spec(&self) -> CommandHeader {
        CommandHeader { write: false, group: IMAGE_GROUP, command: 6 }
    }

    open spec fn fields_spec(&self) -> Seq<(Seq<char>, Item)> {
        Seq::empty()
    }

    fn header(&self) -> CommandHeader {
        CommandHeader { write: false, group: IMAGE_GROUP, command: 6 }
    }

    fn fields(&self) -> Vec<Field<'_>> {
        let fields: Vec<Field<'_>> = Vec::new();
        assert(entries(fields@) =~= self.fields_spec());
        fields
    }
}

} // verus!
