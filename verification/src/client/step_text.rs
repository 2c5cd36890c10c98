//! Describing and comparing the steps of a firmware update.

use super::firmware_update::FirmwareUpdateStep;
use crate::bytes::bytes_equal;
use crate::hexadecimal::{encode_hex, hex_text, lemma_hex_text};
use crate::text::{digit, text_equal};
use vstd::prelude::*;
use vstd::slice::slice_subrange;
use vstd::string::*;

verus! {

/// How many bytes of a hash are shown.
pub const SHOWN_HASH_DIGITS: usize = 4;

/// A version, followed by the beginning of the hash if there is one.
pub open spec fn version_text(version: Seq<char>, hash: Option<[u8; 32]>) -> Seq<char> {
    match hash {
        Some(hash) => version + "-"@ + hex_text(hash@.subrange(0, SHOWN_HASH_DIGITS as int)),
        None => version,
    }
}

/// The description of a step.
pub open spec fn step_text(step: FirmwareUpdateStep) -> Seq<char> {
    match step {
        FirmwareUpdateStep::DetectingBootloader => "Detecting bootloader ..."@,
        FirmwareUpdateStep::BootloaderFound(_) => "Found bootloader: "@ + "MCUboot"@,
        FirmwareUpdateStep::ParsingFirmwareImage => "Parsing firmware image ..."@,
        FirmwareUpdateStep::QueryingDeviceState => "Querying device state ..."@,
        FirmwareUpdateStep::UpdateInfo { current_version, new_version } => "Update: "@ + (
        match current_version {
            Some((version, hash)) => version_text(version@, hash),
            None => "Empty"@,
        }) + " -> "@ + version_text(new_version.0@, Some(new_version.1)),
        FirmwareUpdateStep::UploadingFirmware => "Uploading new firmware ..."@,
        FirmwareUpdateStep::ActivatingFirmware => "Activating new firmware ..."@,
        FirmwareUpdateStep::TriggeringReboot => "Triggering device reboot ..."@,
    }
}

fn append_version(out: &mut String, version: &String, hash: &Option<[u8; 32]>)
    ensures
        final(out)@ == old(out)@ + version_text(version@, *hash),
{
    out.append(version.as_str());
    if let Some(hash) = hash {
        out.append("-");
        let shown = encode_hex(slice_subrange(hash.as_slice(), 0, SHOWN_HASH_DIGITS));
        out.append(shown.as_str());
    }
    assert(out@ =~= old(out)@ + version_text(version@, *hash));
}

/// The two hashes are equal, if there are any.
pub open spec fn same_optional_hash(a: Option<[u8; 32]>, b: Option<[u8; 32]>) -> bool {
    match (a, b) {
        (Some(a), Some(b)) => a@ == b@,
        (None, None) => true,
        _ => false,
    }
}

/// The two steps are equal.
pub open spec fn same_step(a: FirmwareUpdateStep, b: FirmwareUpdateStep) -> bool {
    match (a, b) {
        (
            FirmwareUpdateStep::UpdateInfo { current_version: a_current, new_version: a_new },
            FirmwareUpdateStep::UpdateInfo { current_version: b_current, new_version: b_new },
        ) => {
            &&& match (a_current, b_current) {
                (Some(a), Some(b)) => a.0@ == b.0@ && same_optional_hash(a.1, b.1),
                (None, None) => true,
                _ => false,
            }
            &&& a_new.0@ == b_new.0@
            &&& a_new.1@ == b_new.1@
        },
        _ => a == b,
    }
}

fn optional_hashes_equal(a: &Option<[u8; 32]>, b: &Option<[u8; 32]>) -> (r: bool)
    ensures
        r == same_optional_hash(*a, *b),
{
    match (a, b) {
        (Some(a), Some(b)) => bytes_equal(a, b),
        (None, None) => true,
        _ => false,
    }
}

fn optional_versions_equal(
    a: &Option<(String, Option<[u8; 32]>)>,
    b: &Option<(String, Option<[u8; 32]>)>,
) -> (r: bool)
    ensures
        r == match (*a, *b) {
            (Some(a), Some(b)) => a.0@ == b.0@ && same_optional_hash(a.1, b.1),
            (None, None) => true,
            _ => false,
        },
{
    match (a, b) {
        (Some(a), Some(b)) => text_equal(a.0.as_str(), b.0.as_str()) && optional_hashes_equal(
            &a.1,
            &b.1,
        ),
        (None, None) => true,
        _ => false,
    }
}

impl FirmwareUpdateStep {
    /// Describes the step.
    pub fn to_string(&self) -> (s: String)
        ensures
            s@ == step_text(*self),
    {
        let mut out = String::new();
        match self {
            FirmwareUpdateStep::DetectingBootloader => out.append("Detecting bootloader ..."),
            FirmwareUpdateStep::BootloaderFound(bootloader_type) => {
                out.append("Found bootloader: ");
                out.append(bootloader_type.name());
            },
            FirmwareUpdateStep::ParsingFirmwareImage => out.append("Parsing firmware image ..."),
            FirmwareUpdateStep::QueryingDeviceState => out.append("Querying device state ..."),
            FirmwareUpdateStep::UpdateInfo { current_version, new_version } => {
                out.append("Update: ");
                match current_version {
                    Some(current) => append_version(&mut out, &current.0, &current.1),
                    None => out.append("Empty"),
                }
                out.append(" -> ");
                append_version(&mut out, &new_version.0, &Some(new_version.1));
            },
            FirmwareUpdateStep::UploadingFirmware => out.append("Uploading new firmware ..."),
            FirmwareUpdateStep::ActivatingFirmware => out.append("Activating new firmware ..."),
            FirmwareUpdateStep::TriggeringReboot => out.append("Triggering device reboot ..."),
        }
        assert(out@ =~= step_text(*self));
        out
    }

    /// Whether the step is the same as another one.
    pub fn is_same(&self, other: &FirmwareUpdateStep) -> (r: bool)
        ensures
            r == same_step(*self, *other),
    {
        match (self, other) {
            (
                FirmwareUpdateStep::DetectingBootloader,
                FirmwareUpdateStep::DetectingBootloader,
            ) => true,
            (FirmwareUpdateStep::BootloaderFound(a), FirmwareUpdateStep::BootloaderFound(b)) => {
                *a == *b
            },
            (
                FirmwareUpdateStep::ParsingFirmwareImage,
                FirmwareUpdateStep::ParsingFirmwareImage,
            ) => true,
            (
                FirmwareUpdateStep::QueryingDeviceState,
                FirmwareUpdateStep::QueryingDeviceState,
            ) => true,
            (
                FirmwareUpdateStep::UpdateInfo { current_version: a_current, new_version: a_new },
                FirmwareUpdateStep::UpdateInfo { current_version: b_current, new_version: b_new },
            ) => {
                optional_versions_equal(a_current, b_current) && text_equal(
                    a_new.0.as_str(),
                    b_new.0.as_str(),
                ) && bytes_equal(&a_new.1, &b_new.1)
            },
            (FirmwareUpdateStep::UploadingFirmware, FirmwareUpdateStep::UploadingFirmware) => true,
            (
                FirmwareUpdateStep::ActivatingFirmware,
                FirmwareUpdateStep::ActivatingFirmware,
            ) => true,
            (FirmwareUpdateStep::TriggeringReboot, FirmwareUpdateStep::TriggeringReboot) => true,
            _ => false,
        }
    }
}

/// The digits of the first four bytes of a hash.
pub open spec fn first_digits(hash: [u8; 32]) -> Seq<char> {
    seq![
        digit(hash@[0] as nat / 16),
        digit(hash@[0] as nat % 16),
        digit(hash@[1] as nat / 16),
        digit(hash@[1] as nat % 16),
        digit(hash@[2] as nat / 16),
        digit(hash@[2] as nat % 16),
        digit(hash@[3] as nat / 16),
        digit(hash@[3] as nat % 16),
    ]
}

proof fn lemma_first_digits(hash: [u8; 32])
    ensures
        hex_text(hash@.subrange(0, SHOWN_HASH_DIGITS as int)) == first_digits(hash),
{
    let shown = hash@.subrange(0, SHOWN_HASH_DIGITS as int);
    lemma_hex_text(shown);
    let text = hex_text(shown);
    assert(shown[0] == hash@[0] && shown[1] == hash@[1] && shown[2] == hash@[2] && shown[3]
        == hash@[3]);
    assert(text[2 * 0int] == digit(shown[0] as nat / 16));
    assert(text[2 * 1int] == digit(shown[1] as nat / 16));
    assert(text[2 * 2int] == digit(shown[2] as nat / 16));
    assert(text[2 * 3int] == digit(shown[3] as nat / 16));
    assert(text =~= first_digits(hash));
}

/// The summary of an update names the current version and the new one, each with the eight digits
/// of the first four bytes of its hash. The current version goes without them if its hash is not
/// known, and it is called empty if there is none.
pub proof fn law_summary_names_both_versions(
    current_version: Option<(String, Option<[u8; 32]>)>,
    new_version: (String, [u8; 32]),
    s: String,
)
    requires
        call_ensures(
            FirmwareUpdateStep::to_string,
            (&FirmwareUpdateStep::UpdateInfo { current_version, new_version },),
            s,
        ),
    ensures
        ({
            let to = " -> "@ + new_version.0@ + "-"@ + first_digits(new_version.1);
            &&& current_version is None ==> s@ == "Update: "@ + "Empty"@ + to
            &&& current_version matches Some((version, None)) ==> s@ == "Update: "@ + version@ + to
            &&& current_version matches Some((version, Some(hash))) ==> s@ == "Update: "@
                + version@ + "-"@ + first_digits(hash) + to
        }),
{
    lemma_first_digits(new_version.1);
    let to = " -> "@ + new_version.0@ + "-"@ + first_digits(new_version.1);
    match current_version {
        None => {
            assert(s@ =~= "Update: "@ + "Empty"@ + to);
        },
        Some((version, None)) => {
            assert(s@ =~= "Update: "@ + version@ + to);
        },
        Some((version, Some(hash))) => {
            lemma_first_digits(hash);
            assert(s@ =~= "Update: "@ + version@ + "-"@ + first_digits(hash) + to);
        },
    }
}

/// Every other step has a text of its own.
pub proof fn law_steps_are_described(step: FirmwareUpdateStep, s: String)
    requires
        call_ensures(FirmwareUpdateStep::to_string, (&step,), s),
    ensures
        step is DetectingBootloader ==> s@ == "Detecting bootloader ..."@,
        step is BootloaderFound ==> s@ == "Found bootloader: MCUboot"@,
        step is ParsingFirmwareImage ==> s@ == "Parsing firmware image ..."@,
        step is QueryingDeviceState ==> s@ == "Querying device state ..."@,
        step is UploadingFirmware ==> s@ == "Uploading new firmware ..."@,
        step is ActivatingFirmware ==> s@ == "Activating new firmware ..."@,
        step is TriggeringReboot ==> s@ == "Triggering device reboot ..."@,
{
    reveal_strlit("Found bootloader: ");
    reveal_strlit("MCUboot");
    reveal_strlit("Found bootloader: MCUboot");
    assert("Found bootloader: "@ + "MCUboot"@ =~= "Found bootloader: MCUboot"@);
}

/// Summaries are the same exactly if they name the same versions with the same hashes, and other
/// steps exactly if they are equal.
pub proof fn law_same_steps_agree(a: FirmwareUpdateStep, b: FirmwareUpdateStep, r: bool)
    requires
        call_ensures(FirmwareUpdateStep::is_same, (&a, &b), r),
    ensures
        !(a is UpdateInfo) || !(b is UpdateInfo) ==> r == (a == b),
        a is UpdateInfo && b is UpdateInfo ==> (r <==> {
            let x = a->current_version;
            let y = b->current_version;
            &&& a->new_version.0@ == b->new_version.0@
            &&& a->new_version.1@ == b->new_version.1@
            &&& x is Some <==> y is Some
            &&& x matches Some((x_version, x_hash)) ==> (y matches Some((y_version, y_hash)) ==> {
                &&& x_version@ == y_version@
                &&& x_hash is Some <==> y_hash is Some
                &&& x_hash is Some ==> x_hash->0@ == y_hash->0@
            })
        }),
{
}

} // verus!
