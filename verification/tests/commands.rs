//! How commands are encoded, and how much data fits into them.

use ciborium::Value;
use mcumgr_toolkit::commands::enumeration;
use mcumgr_toolkit::commands::fs::{
    FileChecksum, FileChecksumData, FileChecksumDataFormat, FileChecksumResponse, FileClose, FileDownload, FileStatus,
    FileUpload, SupportedFileChecksumTypes,
};
use mcumgr_toolkit::commands::image::{
    GetImageState, ImageErase, ImageUpload, SetImageState, SlotInfo,
};
use mcumgr_toolkit::commands::os;
use mcumgr_toolkit::commands::shell::ShellCommandLineExecute;
use mcumgr_toolkit::commands::stats;
use mcumgr_toolkit::commands::zephyr::EraseStorage;
use mcumgr_toolkit::commands::{max_data_chunk_size, request, CommandHeader, McuMgrCommand};

fn cbor(entries: Vec<(&str, Value)>) -> Vec<u8> {
    let map = Value::Map(
        entries
            .into_iter()
            .map(|(key, value)| (Value::from(key), value))
            .collect(),
    );
    let mut bytes = vec![];
    ciborium::into_writer(&map, &mut bytes).unwrap();
    bytes
}

fn assert_encodes<C: McuMgrCommand>(
    command: &C,
    (op, group, id): (u8, u16, u8),
    entries: Vec<(&str, Value)>,
) {
    let encoded = request(command, true);
    assert_eq!(
        encoded.header,
        CommandHeader {
            write: op == 2,
            group,
            command: id
        }
    );
    assert_eq!(encoded.payload, cbor(entries));
    assert!(encoded.use_retries);
    assert!(!request(command, false).use_retries);
}

const HASH: [u8; 32] = [
    1, 2, 3, 4, 5, 6, 7, 8, 9, 10, 11, 12, 13, 14, 15, 16, 17, 18, 19, 20, 21, 22, 23, 24, 25, 26,
    27, 28, 29, 30, 31, 32,
];

#[test]
fn get_image_state() {
    assert_encodes(&GetImageState, (0, 1, 0), vec![]);
    assert_eq!(request(&GetImageState, true).payload, vec![0xa0]);
}

#[test]
fn set_image_state_temp() {
    assert_encodes(
        &SetImageState {
            confirm: false,
            hash: Some(&HASH),
        },
        (2, 1, 0),
        vec![
            ("hash", Value::Bytes(HASH.to_vec())),
            ("confirm", Value::from(false)),
        ],
    );
}

#[test]
fn set_image_state_perm() {
    assert_encodes(
        &SetImageState {
            confirm: true,
            hash: None,
        },
        (2, 1, 0),
        vec![("confirm", Value::from(true))],
    );
}

#[test]
fn upload_image_first() {
    let sha = [
        0, 1, 2, 3, 4, 5, 6, 7, 8, 9, 0, 1, 2, 3, 4, 5, 6, 7, 8, 9, 0, 1, 2, 3, 4, 5, 6, 7, 8, 9,
        0, 1,
    ];
    assert_encodes(
        &ImageUpload {
            image: Some(2),
            len: Some(123456789123),
            off: 0,
            sha: Some(&sha),
            data: &[5, 6, 7, 8],
            upgrade: Some(false),
        },
        (2, 1, 1),
        vec![
            ("image", Value::from(2)),
            ("len", Value::from(123456789123u64)),
            ("off", Value::from(0)),
            ("sha", Value::Bytes(sha.to_vec())),
            ("data", Value::Bytes(vec![5, 6, 7, 8])),
            ("upgrade", Value::from(false)),
        ],
    );
}

#[test]
fn upload_image_last() {
    assert_encodes(
        &ImageUpload {
            image: None,
            len: None,
            off: 123456789118,
            sha: None,
            data: &[100, 101, 102, 103, 104],
            upgrade: None,
        },
        (2, 1, 1),
        vec![
            ("off", Value::from(123456789118u64)),
            ("data", Value::Bytes(vec![100, 101, 102, 103, 104])),
        ],
    );
}

#[test]
fn image_erase() {
    assert_encodes(&ImageErase { slot: None }, (2, 1, 5), vec![]);
}

#[test]
fn image_erase_with_slot_number() {
    assert_encodes(
        &ImageErase { slot: Some(42) },
        (2, 1, 5),
        vec![("slot", Value::from(42))],
    );
    assert_eq!(
        request(&ImageErase { slot: Some(42) }, true).payload,
        vec![0xa1, 0x64, b's', b'l', b'o', b't', 0x18, 42]
    );
}

#[test]
fn slot_info() {
    assert_encodes(&SlotInfo, (0, 1, 6), vec![]);
}

#[test]
fn file_download_with_len() {
    assert_encodes(
        &FileDownload {
            off: 42,
            name: "foo.txt",
        },
        (0, 8, 0),
        vec![("off", Value::from(42)), ("name", Value::from("foo.txt"))],
    );
}

#[test]
fn file_download_without_len() {
    assert_encodes(
        &FileDownload {
            off: 69,
            name: "bla.txt",
        },
        (0, 8, 0),
        vec![("off", Value::from(69)), ("name", Value::from("bla.txt"))],
    );
}

#[test]
fn file_upload_with_len() {
    assert_encodes(
        &FileUpload {
            off: 0,
            data: &[1, 2, 3, 4, 5],
            name: "foo.bar",
            len: Some(123),
        },
        (2, 8, 0),
        vec![
            ("off", Value::from(0)),
            ("data", Value::Bytes(vec![1, 2, 3, 4, 5])),
            ("name", Value::from("foo.bar")),
            ("len", Value::from(123)),
        ],
    );
}

#[test]
fn file_upload_without_len() {
    assert_encodes(
        &FileUpload {
            off: 10,
            data: &[40],
            name: "a.xy",
            len: None,
        },
        (2, 8, 0),
        vec![
            ("off", Value::from(10)),
            ("data", Value::Bytes(vec![40])),
            ("name", Value::from("a.xy")),
        ],
    );
}

#[test]
fn file_status() {
    assert_encodes(
        &FileStatus { name: "a.xy" },
        (0, 8, 1),
        vec![("name", Value::from("a.xy"))],
    );
}

#[test]
fn file_checksum_full_with_checksum() {
    assert_encodes(
        &FileChecksum {
            name: "file.txt",
            algorithm: Some("sha256"),
            off: 42,
            len: Some(16),
        },
        (0, 8, 2),
        vec![
            ("name", Value::from("file.txt")),
            ("type", Value::from("sha256")),
            ("off", Value::from(42)),
            ("len", Value::from(16)),
        ],
    );
}

#[test]
fn file_checksum_empty_with_hash() {
    assert_encodes(
        &FileChecksum {
            name: "file.txt",
            algorithm: None,
            off: 0,
            len: None,
        },
        (0, 8, 2),
        vec![("name", Value::from("file.txt"))],
    );
}

#[test]
fn supported_checksum_types() {
    assert_encodes(&SupportedFileChecksumTypes, (0, 8, 3), vec![]);
}

#[test]
fn file_close() {
    assert_encodes(&FileClose, (2, 8, 4), vec![]);
}

#[test]
fn os_commands_are_encoded() {
    assert_encodes(&os::Echo { d: "hi" }, (2, 0, 0), vec![("d", Value::from("hi"))]);
    assert_encodes(&os::TaskStatistics, (0, 0, 2), vec![]);
    assert_encodes(&os::DateTimeGet, (0, 0, 4), vec![]);
    assert_encodes(
        &os::DateTimeSet {
            datetime: "2025-11-20T11:56:05",
        },
        (2, 0, 4),
        vec![("datetime", Value::from("2025-11-20T11:56:05"))],
    );
    assert_encodes(
        &os::SystemReset {
            force: false,
            boot_mode: None,
        },
        (2, 0, 5),
        vec![],
    );
    assert_encodes(&os::MCUmgrParameters, (0, 0, 6), vec![]);
    assert_encodes(
        &os::ApplicationInfo { format: Some("s") },
        (0, 0, 7),
        vec![("format", Value::from("s"))],
    );
    assert_encodes(&os::ApplicationInfo { format: None }, (0, 0, 7), vec![]);
    assert_encodes(&os::BootloaderInfo, (0, 0, 8), vec![]);
    assert_encodes(
        &os::BootloaderInfoMcubootMode,
        (0, 0, 8),
        vec![("query", Value::from("mode"))],
    );
}

#[test]
fn system_reset_arguments_are_encoded() {
    let encoded = request(
        &os::SystemReset {
            force: true,
            boot_mode: Some(1),
        },
        true,
    );
    let decoded: Value = ciborium::from_reader(encoded.payload.as_slice()).unwrap();
    let entries = decoded.into_map().unwrap();
    assert_eq!(entries.len(), 2);
    assert_eq!(entries[0].0, Value::from("force"));
    assert_eq!(entries[1], (Value::from("boot_mode"), Value::from(1)));
}

#[test]
fn other_groups_are_encoded() {
    assert_encodes(
        &stats::GroupData { name: "smp" },
        (0, 2, 0),
        vec![("name", Value::from("smp"))],
    );
    assert_encodes(&stats::ListGroups, (0, 2, 1), vec![]);
    let argv = vec!["echo".to_string(), "Hällo".to_string()];
    assert_encodes(
        &ShellCommandLineExecute { argv: &argv },
        (2, 9, 0),
        vec![(
            "argv",
            Value::Array(vec![Value::from("echo"), Value::from("Hällo")]),
        )],
    );
    assert_encodes(&enumeration::GroupCount, (0, 10, 0), vec![]);
    assert_encodes(&enumeration::ListGroups, (0, 10, 1), vec![]);
    assert_encodes(
        &enumeration::GroupId { index: Some(3) },
        (0, 10, 2),
        vec![("index", Value::from(3))],
    );
    assert_encodes(&enumeration::GroupId { index: None }, (0, 10, 2), vec![]);
    assert_encodes(&EraseStorage, (2, 63, 0), vec![]);
}

#[test]
fn numbers_take_their_shortest_form() {
    let payload = |slot| request(&ImageErase { slot: Some(slot) }, true).payload[6..].to_vec();
    assert_eq!(payload(23), vec![23]);
    assert_eq!(payload(24), vec![0x18, 24]);
    assert_eq!(payload(255), vec![0x18, 255]);
    assert_eq!(payload(256), vec![0x19, 1, 0]);
    assert_eq!(payload(65535), vec![0x19, 255, 255]);
    assert_eq!(payload(65536), vec![0x1a, 0, 1, 0, 0]);
    let payload = |off| request(&FileDownload { off, name: "" }, true).payload[5..14].to_vec();
    assert_eq!(
        payload(0x0102030405060708),
        vec![0x1b, 1, 2, 3, 4, 5, 6, 7, 8]
    );
}

#[test]
fn file_upload_max_data_chunk_size() {
    for smp_frame_size in 57..100000 {
        let smp_payload_size = smp_frame_size - 8 /* SMP frame header */;

        let filename = "test.txt";
        let max_data_size = mcumgr_toolkit::commands::fs::file_upload_max_data_chunk_size(
            smp_frame_size,
            filename,
        )
        .unwrap();

        let cmd = FileUpload {
            off: u64::MAX,
            data: &vec![0; max_data_size],
            name: filename,
            len: Some(u64::MAX),
        };

        let cbor_data = request(&cmd, true).payload;

        assert!(
            smp_payload_size - 2 <= cbor_data.len() && cbor_data.len() <= smp_payload_size,
            "Failed at frame size {}: actual={}, max={}",
            smp_frame_size,
            cbor_data.len(),
            smp_payload_size,
        );
    }
}

#[test]
fn file_upload_max_data_chunk_size_too_small() {
    for smp_frame_size in 0..57 {
        let filename = "test.txt";
        let max_data_size = mcumgr_toolkit::commands::fs::file_upload_max_data_chunk_size(
            smp_frame_size,
            filename,
        );

        assert!(max_data_size.is_err());
    }
}

#[test]
fn image_upload_max_data_chunk_size() {
    for smp_frame_size in 101..100000 {
        let smp_payload_size = smp_frame_size - 8 /* SMP frame header */;

        let max_data_size =
            mcumgr_toolkit::commands::image::image_upload_max_data_chunk_size(smp_frame_size)
                .unwrap();

        let cmd = ImageUpload {
            off: u64::MAX,
            data: &vec![0; max_data_size],
            len: Some(u64::MAX),
            image: Some(u32::MAX),
            sha: Some(&[u8::MAX; 32]),
            upgrade: Some(true),
        };

        let cbor_data = request(&cmd, true).payload;

        assert!(
            smp_payload_size - 2 <= cbor_data.len() && cbor_data.len() <= smp_payload_size,
            "Failed at frame size {}: actual={}, max={}",
            smp_frame_size,
            cbor_data.len(),
            smp_payload_size,
        );
    }
}

#[test]
fn image_upload_max_data_chunk_size_too_small() {
    for smp_frame_size in 0..101 {
        let max_data_size =
            mcumgr_toolkit::commands::image::image_upload_max_data_chunk_size(smp_frame_size);

        assert!(max_data_size.is_err());
    }
}

#[test]
fn chunk_sizes_are_exact() {
    let image = mcumgr_toolkit::commands::image::image_upload_max_data_chunk_size;
    assert_eq!(image(101), Ok(1));
    assert_eq!(image(384), Ok(283));
    let file = mcumgr_toolkit::commands::fs::file_upload_max_data_chunk_size;
    assert_eq!(file(57, "test.txt"), Ok(1));
    assert_eq!(file(384, "test.txt"), Ok(327));
    // The length is that of the UTF-8 encoding
    assert_eq!(file(384, "täst.txt"), Ok(326));
}

#[test]
fn the_length_of_the_data_is_kept_free() {
    assert!(max_data_chunk_size(9, 2).is_err());
    assert_eq!(max_data_chunk_size(10, 1), Ok(1));
    assert_eq!(max_data_chunk_size(8 + 255, 1), Ok(254));
    assert_eq!(max_data_chunk_size(8 + 256, 1), Ok(254));
    assert_eq!(max_data_chunk_size(8 + 65535, 1), Ok(65533));
    assert_eq!(max_data_chunk_size(8 + 65536, 1), Ok(65532));
    assert_eq!(max_data_chunk_size(8 + 0xffff_ffff, 1), Ok(0xffff_fffb));
    assert_eq!(max_data_chunk_size(8 + 0x1_0000_0000, 1), Ok(0xffff_fff8));
}

#[test]
fn checksums_are_shown_in_hexadecimal() {
    assert_eq!(
        FileChecksumData::Hash(vec![1, 0xab, 0xff].into_boxed_slice()).hex(),
        "01abff"
    );
    assert_eq!(FileChecksumData::Hash(vec![].into_boxed_slice()).hex(), "");
    assert_eq!(FileChecksumData::Checksum(100000).hex(), "000186a0");
    assert_eq!(FileChecksumData::Checksum(u32::MAX).hex(), "ffffffff");
}

#[test]
fn checksum_formats_have_numbers_and_names() {
    assert_eq!(
        FileChecksumDataFormat::from_repr(0),
        Some(FileChecksumDataFormat::Numerical)
    );
    assert_eq!(
        FileChecksumDataFormat::from_repr(1),
        Some(FileChecksumDataFormat::ByteArray)
    );
    assert_eq!(FileChecksumDataFormat::from_repr(2), None);
    assert_eq!(FileChecksumDataFormat::Numerical.name(), "Numerical");
    assert_eq!(FileChecksumDataFormat::ByteArray.name(), "ByteArray");
}

#[test]
fn checksum_responses_can_be_cloned() {
    for output in [
        FileChecksumData::Hash(vec![1, 2, 3].into_boxed_slice()),
        FileChecksumData::Checksum(7),
    ] {
        let response = FileChecksumResponse {
            algorithm: "sha256".to_string(),
            off: 1,
            len: 2,
            output,
        };
        assert_eq!(response.clone(), response);
    }
}
