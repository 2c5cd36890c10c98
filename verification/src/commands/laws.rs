//! What a device reads from the commands with optional arguments.

use super::enumeration::GroupId;
use super::fs::{FileDownload, FileUpload};
use super::image::{ImageUpload, SetImageState};
use super::{max_data_chunk_size, request, CommandHeader, McuMgrCommand, Request};
use crate::cbor::Item;
use crate::device::{
    are_short, arguments, is_countable, is_short, is_short_text, law_arguments_are_read_back,
    lemma_short_concat, lemma_short_none, lemma_short_single,
};
use crate::error::DataTooLargeError;
use vstd::prelude::*;

verus! {

/// An argument that is only sent if there is a value for it.
pub open spec fn given(key: Seq<char>, item: Option<Item>) -> Seq<(Seq<char>, Item)> {
    if item is Some {
        seq![(key, item->0)]
    } else {
        Seq::empty()
    }
}

proof fn lemma_short_given(key: Seq<char>, item: Option<Item>)
    requires
        key.len() < 100,
        item is Some ==> is_short(item->0),
    ensures
        are_short(given(key, item)),
        given(key, item).len() <= 1,
{
    lemma_short_none();
    if item is Some {
        lemma_short_single(key, item->0);
    }
}

/// Every part of an image is sent with its offset. The number of the image, its length, its hash
/// and the upgrade flag are sent exactly if they are given, whatever the offset is.
pub proof fn law_image_upload_is_read(
    command: ImageUpload<'_, '_>,
    use_retries: bool,
    r: Request,
)
    requires
        call_ensures(request::<ImageUpload<'_, '_>>, (&command, use_retries), r),
        is_countable(command.data@.len()),
    ensures
        r.header == (CommandHeader { write: true, group: 1, command: 1 }),
        arguments(r.payload@) == Some(
            given(
                "image"@,
                match command.image {
                    Some(image) => Some(Item::Unsigned(image as u64)),
                    None => None,
                },
            ) + given(
                "len"@,
                match command.len {
                    Some(len) => Some(Item::Unsigned(len)),
                    None => None,
                },
            ) + seq![("off"@, Item::Unsigned(command.off))] + given(
                "sha"@,
                match command.sha {
                    Some(sha) => Some(Item::Bytes(sha@)),
                    None => None,
                },
            ) + seq![("data"@, Item::Bytes(command.data@))] + given(
                "upgrade"@,
                match command.upgrade {
                    Some(upgrade) => Some(Item::Flag(upgrade)),
                    None => None,
                },
            ),
        ),
{
    reveal_strlit("image");
    reveal_strlit("len");
    reveal_strlit("off");
    reveal_strlit("sha");
    reveal_strlit("data");
    reveal_strlit("upgrade");
    let image = match command.image {
        Some(image) => Some(Item::Unsigned(image as u64)),
        None => None,
    };
    let len = match command.len {
        Some(len) => Some(Item::Unsigned(len)),
        None => None,
    };
    let sha = match command.sha {
        Some(sha) => Some(Item::Bytes(sha@)),
        None => None,
    };
    let upgrade = match command.upgrade {
        Some(upgrade) => Some(Item::Flag(upgrade)),
        None => None,
    };
    let off = seq![("off"@, Item::Unsigned(command.off))];
    let data = seq![("data"@, Item::Bytes(command.data@))];
    lemma_short_given("image"@, image);
    lemma_short_given("len"@, len);
    lemma_short_single("off"@, Item::Unsigned(command.off));
    lemma_short_given("sha"@, sha);
    lemma_short_single("data"@, Item::Bytes(command.data@));
    lemma_short_given("upgrade"@, upgrade);
    let a = given("image"@, image) + given("len"@, len);
    lemma_short_concat(given("image"@, image), given("len"@, len));
    lemma_short_concat(a, off);
    lemma_short_concat(a + off, given("sha"@, sha));
    lemma_short_concat(a + off + given("sha"@, sha), data);
    lemma_short_concat(a + off + given("sha"@, sha) + data, given("upgrade"@, upgrade));
    let all = a + off + given("sha"@, sha) + data + given("upgrade"@, upgrade);
    assert(command.fields_spec() =~= all);
    law_arguments_are_read_back(all);
}

/// The image state is set for a hash of any length exactly if one is given, whether or not the
/// image is to be confirmed.
pub proof fn law_set_image_state_is_read(command: SetImageState<'_>, use_retries: bool, r: Request)
    requires
        call_ensures(request::<SetImageState<'_>>, (&command, use_retries), r),
        command.hash is Some ==> is_countable(command.hash->0@.len()),
    ensures
        r.header == (CommandHeader { write: true, group: 1, command: 0 }),
        arguments(r.payload@) == Some(
            given(
                "hash"@,
                match command.hash {
                    Some(hash) => Some(Item::Bytes(hash@)),
                    None => None,
                },
            ) + seq![("confirm"@, Item::Flag(command.confirm))],
        ),
{
    reveal_strlit("hash");
    reveal_strlit("confirm");
    let hash = match command.hash {
        Some(hash) => Some(Item::Bytes(hash@)),
        None => None,
    };
    lemma_short_given("hash"@, hash);
    lemma_short_single("confirm"@, Item::Flag(command.confirm));
    let all = given("hash"@, hash) + seq![("confirm"@, Item::Flag(command.confirm))];
    lemma_short_concat(given("hash"@, hash), seq![("confirm"@, Item::Flag(command.confirm))]);
    assert(command.fields_spec() =~= all);
    law_arguments_are_read_back(all);
}

/// Every part of a file is sent with its offset and the name of the file. The length is sent
/// exactly if it is given, whatever the offset is.
pub proof fn law_file_upload_is_read(command: FileUpload<'_, '_>, use_retries: bool, r: Request)
    requires
        call_ensures(request::<FileUpload<'_, '_>>, (&command, use_retries), r),
        is_countable(command.data@.len()),
        is_short_text(command.name@),
    ensures
        r.header == (CommandHeader { write: true, group: 8, command: 0 }),
        arguments(r.payload@) == Some(
            seq![("off"@, Item::Unsigned(command.off))] + seq![
                ("data"@, Item::Bytes(command.data@)),
            ] + seq![("name"@, Item::Text(command.name@))] + given(
                "len"@,
                match command.len {
                    Some(len) => Some(Item::Unsigned(len)),
                    None => None,
                },
            ),
        ),
{
    reveal_strlit("off");
    reveal_strlit("data");
    reveal_strlit("name");
    reveal_strlit("len");
    let off = seq![("off"@, Item::Unsigned(command.off))];
    let data = seq![("data"@, Item::Bytes(command.data@))];
    let name = seq![("name"@, Item::Text(command.name@))];
    let len = match command.len {
        Some(len) => Some(Item::Unsigned(len)),
        None => None,
    };
    lemma_short_single("off"@, Item::Unsigned(command.off));
    lemma_short_single("data"@, Item::Bytes(command.data@));
    lemma_short_single("name"@, Item::Text(command.name@));
    lemma_short_given("len"@, len);
    lemma_short_concat(off, data);
    lemma_short_concat(off + data, name);
    lemma_short_concat(off + data + name, given("len"@, len));
    let all = off + data + name + given("len"@, len);
    assert(command.fields_spec() =~= all);
    law_arguments_are_read_back(all);
}

/// A part of a file is asked for by its offset and the name of the file.
pub proof fn law_file_download_is_read(command: FileDownload<'_>, use_retries: bool, r: Request)
    requires
        call_ensures(request::<FileDownload<'_>>, (&command, use_retries), r),
        is_short_text(command.name@),
    ensures
        r.header == (CommandHeader { write: false, group: 8, command: 0 }),
        arguments(r.payload@) == Some(
            seq![("off"@, Item::Unsigned(command.off)), ("name"@, Item::Text(command.name@))],
        ),
{
    reveal_strlit("off");
    reveal_strlit("name");
    let off = seq![("off"@, Item::Unsigned(command.off))];
    let name = seq![("name"@, Item::Text(command.name@))];
    lemma_short_single("off"@, Item::Unsigned(command.off));
    lemma_short_single("name"@, Item::Text(command.name@));
    lemma_short_concat(off, name);
    let all = seq![("off"@, Item::Unsigned(command.off)), ("name"@, Item::Text(command.name@))];
    assert(off + name =~= all);
    assert(command.fields_spec() =~= all);
    law_arguments_are_read_back(all);
}

/// A group is asked for by its index exactly if one is given.
pub proof fn law_group_id_is_read(command: GroupId, use_retries: bool, r: Request)
    requires
        call_ensures(request::<GroupId>, (&command, use_retries), r),
    ensures
        r.header == (CommandHeader { write: false, group: 10, command: 2 }),
        arguments(r.payload@) == Some(
            given(
                "index"@,
                match command.index {
                    Some(index) => Some(Item::Unsigned(index as u64)),
                    None => None,
                },
            ),
        ),
{
    reveal_strlit("index");
    let index = match command.index {
        Some(index) => Some(Item::Unsigned(index as u64)),
        None => None,
    };
    lemma_short_given("index"@, index);
    assert(command.fields_spec() =~= given("index"@, index));
    law_arguments_are_read_back(given("index"@, index));
}

/// How much data fits into a frame next to the header of eight bytes, the other arguments and the
/// length of the data. Nothing fits if there is not even room for a single byte.
pub proof fn law_data_fits_into_frame(
    smp_frame_size: usize,
    size_with_one_byte: usize,
    r: Result<usize, DataTooLargeError>,
)
    requires
        call_ensures(max_data_chunk_size, (smp_frame_size, size_with_one_byte), r),
        size_with_one_byte >= 1,
    ensures
        ({
            let room = smp_frame_size - 8 - (size_with_one_byte - 1);
            &&& r is Ok <==> room >= 2
            &&& r matches Ok(n) ==> n == room - (if room < 0x100 {
                1int
            } else if room < 0x1_0000 {
                2
            } else if room < 0x1_0000_0000 {
                4
            } else {
                8
            })
        }),
{
}

} // verus!
