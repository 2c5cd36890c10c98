//! What a device reads from the requests of the client.
//!
//! Every law here speaks of the request that a function of the client returns, and of what a
//! device finds in its payload.

use super::{BootloaderInfoStep, MCUmgrClient};
use crate::bootloader::BootloaderInfo;
use crate::cbor::{map_bytes, Item};
use crate::commands::{
    enumeration, fs, image, os, request, shell, stats, zephyr, CommandHeader, McuMgrCommand,
    Request,
};
use crate::device::{
    are_short, arguments, is_countable, is_short_text, law_arguments_are_read_back,
    lemma_short_concat, lemma_short_none, lemma_short_push, lemma_short_single, lemma_text_size,
};
use crate::error::{ExecuteError, MCUmgrClientError};
use vstd::prelude::*;

verus! {

/// An echo carries the message.
pub proof fn law_os_echo_is_read<T>(
    client: MCUmgrClient<T>,
    msg: &str,
    r: Request,
)
    requires
        call_ensures(MCUmgrClient::<T>::os_echo, (&client, msg), r),
        is_short_text(msg@),
    ensures
        r.header == (CommandHeader { write: true, group: 0, command: 0 }),
        r.use_retries,
        arguments(r.payload@) == Some(seq![("d"@, Item::Text(msg@))]),
{
    let expected = seq![("d"@, Item::Text(msg@))];
    lemma_short_none();
    reveal_strlit("d");
    lemma_short_push(Seq::empty(), "d"@, Item::Text(msg@));
    assert((os::Echo { d: msg }).fields_spec() =~= expected);
    law_arguments_are_read_back(expected);
}

/// A query for the task statistics has no arguments.
pub proof fn law_os_task_statistics_is_read<T>(
    client: MCUmgrClient<T>,
    r: Request,
)
    requires
        call_ensures(MCUmgrClient::<T>::os_task_statistics, (&client,), r),
    ensures
        r.header == (CommandHeader { write: false, group: 0, command: 2 }),
        r.use_retries,
        arguments(r.payload@) == Some(Seq::<(Seq<char>, Item)>::empty()),
{
    let expected = Seq::<(Seq<char>, Item)>::empty();
    lemma_short_none();
    assert((os::TaskStatistics).fields_spec() =~= expected);
    law_arguments_are_read_back(expected);
}

/// Setting the date and time carries it as it is given.
pub proof fn law_os_set_datetime_is_read<T>(
    client: MCUmgrClient<T>,
    datetime: &str,
    r: Request,
)
    requires
        call_ensures(MCUmgrClient::<T>::os_set_datetime, (&client, datetime), r),
        is_short_text(datetime@),
    ensures
        r.header == (CommandHeader { write: true, group: 0, command: 4 }),
        r.use_retries,
        arguments(r.payload@) == Some(seq![("datetime"@, Item::Text(datetime@))]),
{
    let expected = seq![("datetime"@, Item::Text(datetime@))];
    lemma_short_none();
    reveal_strlit("datetime");
    lemma_short_push(Seq::empty(), "datetime"@, Item::Text(datetime@));
    assert((os::DateTimeSet { datetime }).fields_spec() =~= expected);
    law_arguments_are_read_back(expected);
}

/// A query for the date and time has no arguments.
pub proof fn law_os_get_datetime_is_read<T>(
    client: MCUmgrClient<T>,
    r: Request,
)
    requires
        call_ensures(MCUmgrClient::<T>::os_get_datetime, (&client,), r),
    ensures
        r.header == (CommandHeader { write: false, group: 0, command: 4 }),
        r.use_retries,
        arguments(r.payload@) == Some(Seq::<(Seq<char>, Item)>::empty()),
{
    let expected = Seq::<(Seq<char>, Item)>::empty();
    lemma_short_none();
    assert((os::DateTimeGet).fields_spec() =~= expected);
    law_arguments_are_read_back(expected);
}

/// A query for the parameters has no arguments.
pub proof fn law_os_mcumgr_parameters_is_read<T>(
    client: MCUmgrClient<T>,
    r: Request,
)
    requires
        call_ensures(MCUmgrClient::<T>::os_mcumgr_parameters, (&client,), r),
    ensures
        r.header == (CommandHeader { write: false, group: 0, command: 6 }),
        r.use_retries,
        arguments(r.payload@) == Some(Seq::<(Seq<char>, Item)>::empty()),
{
    let expected = Seq::<(Seq<char>, Item)>::empty();
    lemma_short_none();
    assert((os::MCUmgrParameters).fields_spec() =~= expected);
    law_arguments_are_read_back(expected);
}

/// The frame size is taken from a query for the parameters.
pub proof fn law_use_auto_frame_size_is_read<T>(
    client: MCUmgrClient<T>,
    r: Request,
)
    requires
        call_ensures(MCUmgrClient::<T>::use_auto_frame_size, (&client,), r),
    ensures
        r.header == (CommandHeader { write: false, group: 0, command: 6 }),
        r.use_retries,
        arguments(r.payload@) == Some(Seq::<(Seq<char>, Item)>::empty()),
{
    let expected = Seq::<(Seq<char>, Item)>::empty();
    lemma_short_none();
    assert((os::MCUmgrParameters).fields_spec() =~= expected);
    law_arguments_are_read_back(expected);
}

/// A query for the running image names the format if it is given.
pub proof fn law_os_application_info_is_read<T>(
    client: MCUmgrClient<T>,
    format: Option<&str>,
    r: Request,
)
    requires
        call_ensures(MCUmgrClient::<T>::os_application_info, (&client, format), r),
        format is Some ==> is_short_text(format->0@),
    ensures
        r.header == (CommandHeader { write: false, group: 0, command: 7 }),
        r.use_retries,
        arguments(r.payload@) == Some(if format is Some {
            seq![("format"@, Item::Text(format->0@))]
        } else {
            Seq::<(Seq<char>, Item)>::empty()
        }),
{
    let expected = if format is Some {
        seq![("format"@, Item::Text(format->0@))]
    } else {
        Seq::<(Seq<char>, Item)>::empty()
    };
    lemma_short_none();
    reveal_strlit("format");
    if format is Some {
        lemma_short_push(Seq::empty(), "format"@, Item::Text(format->0@));
    }
    assert((os::ApplicationInfo { format }).fields_spec() =~= expected);
    law_arguments_are_read_back(expected);
}

/// A query for the bootloader has no arguments.
pub proof fn law_os_bootloader_info_is_read<T>(
    client: MCUmgrClient<T>,
    r: Request,
)
    requires
        call_ensures(MCUmgrClient::<T>::os_bootloader_info, (&client,), r),
    ensures
        r.header == (CommandHeader { write: false, group: 0, command: 8 }),
        r.use_retries,
        arguments(r.payload@) == Some(Seq::<(Seq<char>, Item)>::empty()),
{
    let expected = Seq::<(Seq<char>, Item)>::empty();
    lemma_short_none();
    assert((os::BootloaderInfo).fields_spec() =~= expected);
    law_arguments_are_read_back(expected);
}

/// A query for the image state has no arguments.
pub proof fn law_image_get_state_is_read<T>(
    client: MCUmgrClient<T>,
    r: Request,
)
    requires
        call_ensures(MCUmgrClient::<T>::image_get_state, (&client,), r),
    ensures
        r.header == (CommandHeader { write: false, group: 1, command: 0 }),
        r.use_retries,
        arguments(r.payload@) == Some(Seq::<(Seq<char>, Item)>::empty()),
{
    let expected = Seq::<(Seq<char>, Item)>::empty();
    lemma_short_none();
    assert((image::GetImageState).fields_spec() =~= expected);
    law_arguments_are_read_back(expected);
}

/// Erasing names the slot exactly if one is given.
pub proof fn law_image_erase_is_read<T>(
    client: MCUmgrClient<T>,
    slot: Option<u32>,
    r: Request,
)
    requires
        call_ensures(MCUmgrClient::<T>::image_erase, (&client, slot), r),
    ensures
        r.header == (CommandHeader { write: true, group: 1, command: 5 }),
        r.use_retries,
        arguments(r.payload@) == Some(if slot is Some {
            seq![("slot"@, Item::Unsigned(slot->0 as u64))]
        } else {
            Seq::<(Seq<char>, Item)>::empty()
        }),
{
    let expected = if slot is Some {
        seq![("slot"@, Item::Unsigned(slot->0 as u64))]
    } else {
        Seq::<(Seq<char>, Item)>::empty()
    };
    lemma_short_none();
    reveal_strlit("slot");
    if slot is Some {
        lemma_short_push(Seq::empty(), "slot"@, Item::Unsigned(slot->0 as u64));
    }
    assert((image::ImageErase { slot }).fields_spec() =~= expected);
    law_arguments_are_read_back(expected);
}

/// A query for the slots has no arguments.
pub proof fn law_image_slot_info_is_read<T>(
    client: MCUmgrClient<T>,
    r: Request,
)
    requires
        call_ensures(MCUmgrClient::<T>::image_slot_info, (&client,), r),
    ensures
        r.header == (CommandHeader { write: false, group: 1, command: 6 }),
        r.use_retries,
        arguments(r.payload@) == Some(Seq::<(Seq<char>, Item)>::empty()),
{
    let expected = Seq::<(Seq<char>, Item)>::empty();
    lemma_short_none();
    assert((image::SlotInfo).fields_spec() =~= expected);
    law_arguments_are_read_back(expected);
}

/// A query for statistics names the group.
pub proof fn law_stats_get_group_data_is_read<T>(
    client: MCUmgrClient<T>,
    name: &str,
    r: Request,
)
    requires
        call_ensures(MCUmgrClient::<T>::stats_get_group_data, (&client, name), r),
        is_short_text(name@),
    ensures
        r.header == (CommandHeader { write: false, group: 2, command: 0 }),
        r.use_retries,
        arguments(r.payload@) == Some(seq![("name"@, Item::Text(name@))]),
{
    let expected = seq![("name"@, Item::Text(name@))];
    lemma_short_none();
    reveal_strlit("name");
    lemma_short_push(Seq::empty(), "name"@, Item::Text(name@));
    assert((stats::GroupData { name }).fields_spec() =~= expected);
    law_arguments_are_read_back(expected);
}

/// A query for the statistics groups has no arguments.
pub proof fn law_stats_list_groups_is_read<T>(
    client: MCUmgrClient<T>,
    r: Request,
)
    requires
        call_ensures(MCUmgrClient::<T>::stats_list_groups, (&client,), r),
    ensures
        r.header == (CommandHeader { write: false, group: 2, command: 1 }),
        r.use_retries,
        arguments(r.payload@) == Some(Seq::<(Seq<char>, Item)>::empty()),
{
    let expected = Seq::<(Seq<char>, Item)>::empty();
    lemma_short_none();
    assert((stats::ListGroups).fields_spec() =~= expected);
    law_arguments_are_read_back(expected);
}

/// A query for the status of a file names the file.
pub proof fn law_fs_file_status_is_read<T>(
    client: MCUmgrClient<T>,
    name: &str,
    r: Request,
)
    requires
        call_ensures(MCUmgrClient::<T>::fs_file_status, (&client, name), r),
        is_short_text(name@),
    ensures
        r.header == (CommandHeader { write: false, group: 8, command: 1 }),
        r.use_retries,
        arguments(r.payload@) == Some(seq![("name"@, Item::Text(name@))]),
{
    let expected = seq![("name"@, Item::Text(name@))];
    lemma_short_none();
    reveal_strlit("name");
    lemma_short_push(Seq::empty(), "name"@, Item::Text(name@));
    assert((fs::FileStatus { name }).fields_spec() =~= expected);
    law_arguments_are_read_back(expected);
}

/// A query for the checksum types has no arguments.
pub proof fn law_fs_supported_checksum_types_is_read<T>(
    client: MCUmgrClient<T>,
    r: Request,
)
    requires
        call_ensures(MCUmgrClient::<T>::fs_supported_checksum_types, (&client,), r),
    ensures
        r.header == (CommandHeader { write: false, group: 8, command: 3 }),
        r.use_retries,
        arguments(r.payload@) == Some(Seq::<(Seq<char>, Item)>::empty()),
{
    let expected = Seq::<(Seq<char>, Item)>::empty();
    lemma_short_none();
    assert((fs::SupportedFileChecksumTypes).fields_spec() =~= expected);
    law_arguments_are_read_back(expected);
}

/// Closing files has no arguments.
pub proof fn law_fs_file_close_is_read<T>(
    client: MCUmgrClient<T>,
    r: Request,
)
    requires
        call_ensures(MCUmgrClient::<T>::fs_file_close, (&client,), r),
    ensures
        r.header == (CommandHeader { write: true, group: 8, command: 4 }),
        r.use_retries,
        arguments(r.payload@) == Some(Seq::<(Seq<char>, Item)>::empty()),
{
    let expected = Seq::<(Seq<char>, Item)>::empty();
    lemma_short_none();
    assert((fs::FileClose).fields_spec() =~= expected);
    law_arguments_are_read_back(expected);
}

/// A query for the number of groups has no arguments.
pub proof fn law_enum_get_group_count_is_read<T>(
    client: MCUmgrClient<T>,
    r: Request,
)
    requires
        call_ensures(MCUmgrClient::<T>::enum_get_group_count, (&client,), r),
    ensures
        r.header == (CommandHeader { write: false, group: 10, command: 0 }),
        r.use_retries,
        arguments(r.payload@) == Some(Seq::<(Seq<char>, Item)>::empty()),
{
    let expected = Seq::<(Seq<char>, Item)>::empty();
    lemma_short_none();
    assert((enumeration::GroupCount).fields_spec() =~= expected);
    law_arguments_are_read_back(expected);
}

/// A query for all groups has no arguments.
pub proof fn law_enum_get_group_ids_is_read<T>(
    client: MCUmgrClient<T>,
    r: Request,
)
    requires
        call_ensures(MCUmgrClient::<T>::enum_get_group_ids, (&client,), r),
    ensures
        r.header == (CommandHeader { write: false, group: 10, command: 1 }),
        r.use_retries,
        arguments(r.payload@) == Some(Seq::<(Seq<char>, Item)>::empty()),
{
    let expected = Seq::<(Seq<char>, Item)>::empty();
    lemma_short_none();
    assert((enumeration::ListGroups).fields_spec() =~= expected);
    law_arguments_are_read_back(expected);
}

/// A query for a group names its index.
pub proof fn law_enum_get_group_id_is_read<T>(
    client: MCUmgrClient<T>,
    index: u16,
    r: Request,
)
    requires
        call_ensures(MCUmgrClient::<T>::enum_get_group_id, (&client, index), r),
    ensures
        r.header == (CommandHeader { write: false, group: 10, command: 2 }),
        r.use_retries,
        arguments(r.payload@) == Some(seq![("index"@, Item::Unsigned(index as u64))]),
{
    let expected = seq![("index"@, Item::Unsigned(index as u64))];
    lemma_short_none();
    reveal_strlit("index");
    lemma_short_push(Seq::empty(), "index"@, Item::Unsigned(index as u64));
    assert((enumeration::GroupId { index: Some(index) }).fields_spec() =~= expected);
    law_arguments_are_read_back(expected);
}

/// Erasing the storage has no arguments.
pub proof fn law_zephyr_erase_storage_is_read<T>(
    client: MCUmgrClient<T>,
    r: Request,
)
    requires
        call_ensures(MCUmgrClient::<T>::zephyr_erase_storage, (&client,), r),
    ensures
        r.header == (CommandHeader { write: true, group: 63, command: 0 }),
        r.use_retries,
        arguments(r.payload@) == Some(Seq::<(Seq<char>, Item)>::empty()),
{
    let expected = Seq::<(Seq<char>, Item)>::empty();
    lemma_short_none();
    assert((zephyr::EraseStorage).fields_spec() =~= expected);
    law_arguments_are_read_back(expected);
}

/// A reset is forced, and names a boot mode, exactly if it is asked to.
pub proof fn law_os_system_reset_is_read<T>(
    client: MCUmgrClient<T>,
    force: bool,
    boot_mode: Option<u8>,
    r: Request,
)
    requires
        call_ensures(MCUmgrClient::<T>::os_system_reset, (&client, force, boot_mode), r),
    ensures
        r.header == (CommandHeader { write: true, group: 0, command: 5 }),
        r.use_retries,
        arguments(r.payload@) == Some(
            (if force {
                seq![("force"@, Item::Flag(true))]
            } else {
                Seq::<(Seq<char>, Item)>::empty()
            }) + (if boot_mode is Some {
                seq![("boot_mode"@, Item::Unsigned(boot_mode->0 as u64))]
            } else {
                Seq::<(Seq<char>, Item)>::empty()
            }),
        ),
{
    reveal_strlit("force");
    reveal_strlit("boot_mode");
    lemma_short_none();
    lemma_short_single("force"@, Item::Flag(true));
    let a = if force {
        seq![("force"@, Item::Flag(true))]
    } else {
        Seq::<(Seq<char>, Item)>::empty()
    };
    let b = if boot_mode is Some {
        lemma_short_single("boot_mode"@, Item::Unsigned(boot_mode->0 as u64));
        seq![("boot_mode"@, Item::Unsigned(boot_mode->0 as u64))]
    } else {
        Seq::<(Seq<char>, Item)>::empty()
    };
    lemma_short_concat(a, b);
    assert((os::SystemReset { force, boot_mode }).fields_spec() =~= a + b);
    law_arguments_are_read_back(a + b);
}

/// What a device reads from a request that sets the image state: a hash exactly if one is given,
/// whether or not the image is to be confirmed.
pub proof fn lemma_set_state_is_read(hash: Option<Seq<u8>>, confirm: bool)
    requires
        hash is Some ==> is_countable(hash->0.len()),
    ensures
        arguments(map_bytes(image::set_state_fields(hash, confirm))) == Some(
            (if hash is Some {
                seq![("hash"@, Item::Bytes(hash->0))]
            } else {
                Seq::<(Seq<char>, Item)>::empty()
            }) + seq![("confirm"@, Item::Flag(confirm))],
        ),
{
    reveal_strlit("hash");
    reveal_strlit("confirm");
    lemma_short_none();
    let a = if hash is Some {
        lemma_short_single("hash"@, Item::Bytes(hash->0));
        seq![("hash"@, Item::Bytes(hash->0))]
    } else {
        Seq::<(Seq<char>, Item)>::empty()
    };
    let b = seq![("confirm"@, Item::Flag(confirm))];
    lemma_short_single("confirm"@, Item::Flag(confirm));
    lemma_short_concat(a, b);
    assert(image::set_state_fields(hash, confirm) =~= a + b);
    law_arguments_are_read_back(a + b);
}

/// Setting the image state names the hash exactly if one is given, whether or not the image is
/// to be confirmed.
pub proof fn law_image_set_state_is_read<T>(
    client: MCUmgrClient<T>,
    hash: Option<[u8; 32]>,
    confirm: bool,
    r: Request,
)
    requires
        call_ensures(MCUmgrClient::<T>::image_set_state, (&client, hash, confirm), r),
    ensures
        r.header == (CommandHeader { write: true, group: 1, command: 0 }),
        r.use_retries,
        arguments(r.payload@) == Some(
            if hash is Some {
                seq![("hash"@, Item::Bytes(hash->0@)), ("confirm"@, Item::Flag(confirm))]
            } else {
                seq![("confirm"@, Item::Flag(confirm))]
            },
        ),
{
    let given = if hash is Some {
        Some(hash->0@)
    } else {
        None
    };
    lemma_set_state_is_read(given, confirm);
    assert(arguments(r.payload@)->0 =~= if hash is Some {
        seq![("hash"@, Item::Bytes(hash->0@)), ("confirm"@, Item::Flag(confirm))]
    } else {
        seq![("confirm"@, Item::Flag(confirm))]
    });
}

/// Setting the image state by a longer hash names that hash exactly if one is given, whether or
/// not the image is to be confirmed.
pub proof fn law_image_set_state_sha512_is_read<T>(
    client: MCUmgrClient<T>,
    hash: Option<[u8; 64]>,
    confirm: bool,
    r: Request,
)
    requires
        call_ensures(MCUmgrClient::<T>::image_set_state_sha512, (&client, hash, confirm), r),
    ensures
        r.header == (CommandHeader { write: true, group: 1, command: 0 }),
        r.use_retries,
        arguments(r.payload@) == Some(
            if hash is Some {
                seq![("hash"@, Item::Bytes(hash->0@)), ("confirm"@, Item::Flag(confirm))]
            } else {
                seq![("confirm"@, Item::Flag(confirm))]
            },
        ),
{
    let given = if hash is Some {
        Some(hash->0@)
    } else {
        None
    };
    lemma_set_state_is_read(given, confirm);
    assert(arguments(r.payload@)->0 =~= if hash is Some {
        seq![("hash"@, Item::Bytes(hash->0@)), ("confirm"@, Item::Flag(confirm))]
    } else {
        seq![("confirm"@, Item::Flag(confirm))]
    });
}

/// Requests that set the image state only have the same payload if they name the same image and
/// agree on whether it is to be confirmed.
pub proof fn law_image_set_state_tells_images_apart<T>(
    client: MCUmgrClient<T>,
    hash_a: Option<[u8; 32]>,
    confirm_a: bool,
    a: Request,
    hash_b: Option<[u8; 32]>,
    confirm_b: bool,
    b: Request,
)
    requires
        call_ensures(MCUmgrClient::<T>::image_set_state, (&client, hash_a, confirm_a), a),
        call_ensures(MCUmgrClient::<T>::image_set_state, (&client, hash_b, confirm_b), b),
        a.payload@ == b.payload@,
    ensures
        confirm_a == confirm_b,
        hash_a is Some <==> hash_b is Some,
        hash_a is Some ==> hash_a->0@ == hash_b->0@,
{
    law_image_set_state_is_read(client, hash_a, confirm_a, a);
    law_image_set_state_is_read(client, hash_b, confirm_b, b);
    let read_a = arguments(a.payload@)->0;
    let read_b = arguments(b.payload@)->0;
    assert(read_a == read_b);
    assert(read_a.len() == (if hash_a is Some { 2int } else { 1 }));
    assert(read_b.len() == (if hash_b is Some { 2int } else { 1 }));
    assert(read_a.last().1 == Item::Flag(confirm_a));
    assert(read_b.last().1 == Item::Flag(confirm_b));
    if hash_a is Some {
        assert(read_a[0].1 == Item::Bytes(hash_a->0@));
        assert(read_b[0].1 == Item::Bytes(hash_b->0@));
    }
}

/// A checksum is asked for with the file, the algorithm and the length as far as they are given,
/// and with the offset unless it is the beginning of the file.
pub proof fn law_fs_file_checksum_is_read<T>(
    client: MCUmgrClient<T>,
    name: &str,
    algorithm: Option<&str>,
    offset: u64,
    length: Option<u64>,
    r: Request,
)
    requires
        call_ensures(
            MCUmgrClient::<T>::fs_file_checksum,
            (&client, name, algorithm, offset, length),
            r,
        ),
        is_short_text(name@),
        algorithm is Some ==> is_short_text(algorithm->0@),
    ensures
        r.header == (CommandHeader { write: false, group: 8, command: 2 }),
        r.use_retries,
        arguments(r.payload@) == Some(
            seq![("name"@, Item::Text(name@))] + (if algorithm is Some {
                seq![("type"@, Item::Text(algorithm->0@))]
            } else {
                Seq::<(Seq<char>, Item)>::empty()
            }) + (if offset != 0 {
                seq![("off"@, Item::Unsigned(offset))]
            } else {
                Seq::<(Seq<char>, Item)>::empty()
            }) + (if length is Some {
                seq![("len"@, Item::Unsigned(length->0))]
            } else {
                Seq::<(Seq<char>, Item)>::empty()
            }),
        ),
{
    reveal_strlit("name");
    reveal_strlit("type");
    reveal_strlit("off");
    reveal_strlit("len");
    lemma_short_none();
    let a = seq![("name"@, Item::Text(name@))];
    lemma_short_single("name"@, Item::Text(name@));
    let b = if algorithm is Some {
        lemma_short_single("type"@, Item::Text(algorithm->0@));
        seq![("type"@, Item::Text(algorithm->0@))]
    } else {
        Seq::<(Seq<char>, Item)>::empty()
    };
    let c = if offset != 0 {
        lemma_short_single("off"@, Item::Unsigned(offset));
        seq![("off"@, Item::Unsigned(offset))]
    } else {
        Seq::<(Seq<char>, Item)>::empty()
    };
    let d = if length is Some {
        lemma_short_single("len"@, Item::Unsigned(length->0));
        seq![("len"@, Item::Unsigned(length->0))]
    } else {
        Seq::<(Seq<char>, Item)>::empty()
    };
    lemma_short_concat(a, b);
    lemma_short_concat(a + b, c);
    lemma_short_concat(a + b + c, d);
    let command = fs::FileChecksum { name, algorithm, off: offset, len: length };
    assert(command.fields_spec() =~= a + b + c + d);
    law_arguments_are_read_back(a + b + c + d);
}

/// A shell command is sent word for word, and only sent again if that is asked for.
pub proof fn law_shell_execute_is_read<T>(
    client: MCUmgrClient<T>,
    argv: &[String],
    use_retries: bool,
    r: Request,
)
    requires
        call_ensures(MCUmgrClient::<T>::shell_execute, (&client, argv, use_retries), r),
        is_countable(argv@.len()),
        forall|i: int| 0 <= i < argv@.len() ==> is_short_text((#[trigger] argv@[i])@),
    ensures
        r.header == (CommandHeader { write: true, group: 9, command: 0 }),
        r.use_retries == use_retries,
        arguments(r.payload@) matches Some(read) && {
            &&& read.len() == 1
            &&& read[0].0 == "argv"@
            &&& read[0].1 matches Item::TextList(words) && {
                &&& words.len() == argv@.len()
                &&& forall|i: int| 0 <= i < argv@.len() ==> #[trigger] words[i] == argv@[i]@
            }
        },
{
    reveal_strlit("argv");
    let words = argv@.map_values(|s: String| s@);
    lemma_short_single("argv"@, Item::TextList(words));
    let command = shell::ShellCommandLineExecute { argv };
    assert(command.fields_spec() =~= seq![("argv"@, Item::TextList(words))]);
    law_arguments_are_read_back(command.fields_spec());
}

/// The connection is checked with an echo of the message that is returned next to it.
pub proof fn law_check_connection_is_read<T>(client: MCUmgrClient<T>, r: (String, Request))
    requires
        call_ensures(MCUmgrClient::<T>::check_connection, (&client,), r),
    ensures
        r.0@.len() == 16,
        r.1.header == (CommandHeader { write: true, group: 0, command: 0 }),
        r.1.use_retries,
        arguments(r.1.payload@) == Some(seq![("d"@, Item::Text(r.0@))]),
{
    reveal_strlit("d");
    lemma_text_size(r.0@);
    let expected = seq![("d"@, Item::Text(r.0@))];
    lemma_short_single("d"@, Item::Text(r.0@));
    assert(os::echo_fields(r.0@) =~= expected);
    law_arguments_are_read_back(expected);
}

/// The mode of MCUboot is queried exactly if the device names that bootloader.
pub proof fn law_mcuboot_mode_is_queried<T>(
    client: MCUmgrClient<T>,
    response: os::BootloaderInfoResponse,
    step: BootloaderInfoStep,
)
    requires
        call_ensures(
            MCUmgrClient::<T>::os_bootloader_info_reply,
            (&client, Ok::<os::BootloaderInfoResponse, ExecuteError>(response)),
            step,
        ),
    ensures
        step is QueryMode <==> response.bootloader@ == "MCUboot"@,
        step matches BootloaderInfoStep::QueryMode(r) ==> {
            &&& r.header == (CommandHeader { write: false, group: 0, command: 8 })
            &&& r.use_retries
            &&& arguments(r.payload@) == Some(seq![("query"@, Item::Text("mode"@))])
        },
        step matches BootloaderInfoStep::Finished(result) ==> result == Ok::<
            BootloaderInfo,
            MCUmgrClientError,
        >(BootloaderInfo::Unknown { name: response.bootloader }),
{
    reveal_strlit("query");
    reveal_strlit("mode");
    lemma_text_size("mode"@);
    let expected = seq![("query"@, Item::Text("mode"@))];
    lemma_short_single("query"@, Item::Text("mode"@));
    assert(os::BootloaderInfoMcubootMode.fields_spec() =~= expected);
    law_arguments_are_read_back(expected);
}

/// The stack sizes of a task are four times what the device reports, and nothing else changes.
pub proof fn law_stack_sizes_are_bytes<T>(
    client: MCUmgrClient<T>,
    response: os::TaskStatisticsResponse,
    r: Result<Vec<(String, os::TaskStatisticsEntry)>, MCUmgrClientError>,
    i: int,
)
    requires
        call_ensures(
            MCUmgrClient::<T>::os_task_statistics_reply,
            (&client, Ok::<os::TaskStatisticsResponse, ExecuteError>(response)),
            r,
        ),
        super::stack_sizes_fit(response.tasks@),
        0 <= i < response.tasks@.len(),
    ensures
        r matches Ok(tasks) && {
            let (name, before) = response.tasks@[i];
            let after = tasks@[i].1;
            &&& tasks@.len() == response.tasks@.len()
            &&& tasks@[i].0 == name
            &&& before.stkuse is None ==> after.stkuse is None
            &&& before.stkuse is Some ==> after.stkuse is Some && after.stkuse->0
                == before.stkuse->0 * 4
            &&& before.stksiz is None ==> after.stksiz is None
            &&& before.stksiz is Some ==> after.stksiz is Some && after.stksiz->0
                == before.stksiz->0 * 4
            &&& after.prio == before.prio && after.tid == before.tid && after.state == before.state
            &&& after.cswcnt == before.cswcnt && after.runtime == before.runtime
        },
{
}

/// A device reads exactly the arguments of a raw command, under the header of that command.
pub proof fn law_raw_command_is_read<T, C: McuMgrCommand>(
    client: MCUmgrClient<T>,
    command: C,
    r: Request,
)
    requires
        call_ensures(MCUmgrClient::<T>::raw_command::<C>, (&client, &command), r),
        are_short(command.fields_spec()),
        is_countable(command.fields_spec().len()),
    ensures
        r.header == command.header_spec(),
        r.use_retries,
        arguments(r.payload@) == Some(command.fields_spec()),
{
    law_arguments_are_read_back(command.fields_spec());
}

/// Whether a command is sent again if the transport fails is up to the caller.
pub proof fn law_retries_are_requested<C: McuMgrCommand>(command: C, use_retries: bool, r: Request)
    requires
        call_ensures(request::<C>, (&command, use_retries), r),
    ensures
        r.use_retries == use_retries,
        r.header == command.header_spec(),
{
}

} // verus!
