//! High-level firmware update routine
//!
//! The update does not talk to the device itself: every action says what has to be done next,
//! and takes the outcome to get to the following action.

use super::image_upload::{upload_start, ImageUploadStep};
use super::MCUmgrClient;
use crate::bootloader::{BootloaderInfo, BootloaderType};
use crate::bytes::{hash_is, same_hash};
use crate::cbor::map_bytes;
use crate::checksum::sha256_digest;
use crate::commands::image::{set_state_fields, set_state_header, GetImageState, ImageState};
use crate::commands::os;
use crate::commands::os::SystemReset;
use crate::commands::Request;
use crate::error::MCUmgrClientError;
use vstd::prelude::*;

verus! {

/// A firmware image could not be parsed.
#[derive(Clone, Debug, PartialEq, Eq)]
pub struct ImageParseError {
    /// The description of the failure
    pub message: String,
}

/// What a firmware image tells about itself.
#[derive(Clone, Debug, PartialEq, Eq)]
pub struct ImageInfo {
    /// The version of the firmware
    pub version: String,
    /// The hash that identifies the image
    pub hash: [u8; 32],
}

/// Possible error values of [`MCUmgrClient::firmware_update`](super::MCUmgrClient::firmware_update).
#[derive(Clone, Debug, PartialEq, Eq)]
pub enum FirmwareUpdateError {
    /// The progress callback returned an error.
    ProgressCallbackError,
    /// An error occurred while trying to detect the bootloader.
    BootloaderDetectionFailed(MCUmgrClientError),
    /// The device contains a bootloader that is not supported.
    BootloaderNotSupported(String),
    /// Failed to parse the firmware image as MCUboot firmware.
    InvalidMcuBootFirmwareImage(ImageParseError),
    /// Fetching the image state returned an error.
    GetStateFailed(MCUmgrClientError),
    /// Uploading the firmware image returned an error.
    ImageUploadFailed(MCUmgrClientError),
    /// Writing the new image state to the device failed
    SetStateFailed(MCUmgrClientError),
    /// Performing device reset failed
    RebootFailed(MCUmgrClientError),
    /// The given firmware is already installed on the device
    AlreadyInstalled,
}

/// Configurable parameters for [`MCUmgrClient::firmware_update`](super::MCUmgrClient::firmware_update).
#[derive(Clone, Copy, Debug, PartialEq, Eq, Structural)]
pub struct FirmwareUpdateParams {
    /// Default: `None`
    ///
    /// The bootloader type.
    /// Auto-detect bootloader if `None`.
    pub bootloader_type: Option<BootloaderType>,
    /// Default: `false`
    ///
    /// Do not reboot device after the update.
    pub skip_reboot: bool,
    /// Default: `false`
    ///
    /// Skip test boot and confirm directly.
    pub force_confirm: bool,
    /// Default: `false`
    ///
    /// Prevent firmware downgrades.
    pub upgrade_only: bool,
}

impl Default for FirmwareUpdateParams {
    fn default() -> (params: FirmwareUpdateParams)
        ensures
            params.bootloader_type is None,
            !params.skip_reboot,
            !params.force_confirm,
            !params.upgrade_only,
    {
        FirmwareUpdateParams {
            bootloader_type: None,
            skip_reboot: false,
            force_confirm: false,
            upgrade_only: false,
        }
    }
}

/// The step of the firmware update that is currently being performed
#[derive(Debug, PartialEq, Eq, PartialOrd, Ord)]
pub enum FirmwareUpdateStep {
    /// Querying which bootloader the device is running
    DetectingBootloader,
    /// The bootloader was found
    BootloaderFound(BootloaderType),
    /// Extracting meta information from the new firmware image
    ParsingFirmwareImage,
    /// Querying the current firmware state of the device
    QueryingDeviceState,
    /// A summary of what update exactly we will perform now
    UpdateInfo {
        /// The current version with the current ID hash, if available
        current_version: Option<(String, Option<[u8; 32]>)>,
        /// The new version with the new ID hash
        new_version: (String, [u8; 32]),
    },
    /// Uploading the new firmware to the device
    UploadingFirmware,
    /// Marking the new firmware to be swapped to active during next boot
    ActivatingFirmware,
    /// Triggering a system reboot so that the bootloader switches to the new image
    TriggeringReboot,
}

impl Clone for FirmwareUpdateStep {
    fn clone(&self) -> (step: FirmwareUpdateStep)
        ensures
            step == *self,
    {
        match self {
            FirmwareUpdateStep::DetectingBootloader => FirmwareUpdateStep::DetectingBootloader,
            FirmwareUpdateStep::BootloaderFound(bootloader_type) => {
                FirmwareUpdateStep::BootloaderFound(*bootloader_type)
            },
            FirmwareUpdateStep::ParsingFirmwareImage => FirmwareUpdateStep::ParsingFirmwareImage,
            FirmwareUpdateStep::QueryingDeviceState => FirmwareUpdateStep::QueryingDeviceState,
            FirmwareUpdateStep::UpdateInfo { current_version, new_version } => {
                FirmwareUpdateStep::UpdateInfo {
                    current_version: match current_version {
                        Some(current) => Some((current.0.clone(), current.1)),
                        None => None,
                    },
                    new_version: (new_version.0.clone(), new_version.1),
                }
            },
            FirmwareUpdateStep::UploadingFirmware => FirmwareUpdateStep::UploadingFirmware,
            FirmwareUpdateStep::ActivatingFirmware => FirmwareUpdateStep::ActivatingFirmware,
            FirmwareUpdateStep::TriggeringReboot => FirmwareUpdateStep::TriggeringReboot,
        }
    }
}

/// The image of the device that is updated.
pub const TARGET_IMAGE: u32 = 0;

/// What an update was asked to do.
#[derive(Clone, Copy, Debug)]
pub struct FirmwareUpdate<'a> {
    /// The firmware image data
    pub firmware: &'a [u8],
    /// The expected SHA256 checksum of the firmware image
    pub checksum: Option<[u8; 32]>,
    /// The parameters
    pub params: FirmwareUpdateParams,
}

/// The image that an update installs.
pub struct NewImage {
    /// The bootloader that the image is made for
    pub bootloader_type: BootloaderType,
    /// The version of the firmware
    pub version: String,
    /// The hash that identifies the image
    pub hash: [u8; 32],
}

/// What an update does after it reported a step.
pub enum AfterReport {
    /// Detect the bootloader
    DetectBootloader,
    /// Report that the firmware image is parsed
    AnnounceParsing(BootloaderType),
    /// Parse the firmware image
    ParseImage(BootloaderType),
    /// Query the state of the device
    GetState(NewImage),
    /// Report that the firmware is uploaded, or give up if it is installed already
    AnnounceUpload {
        /// The new image
        image: NewImage,
        /// Whether the image is installed already
        installed: bool,
    },
    /// Upload the firmware
    Upload(NewImage),
    /// Activate the firmware
    SetState(NewImage),
    /// Query the state of the device again, after the firmware could not be activated
    Recheck {
        /// The new image
        image: NewImage,
        /// Why the firmware could not be activated
        error: MCUmgrClientError,
    },
    /// Reboot the device
    Reset,
}

/// A step was reported to the user.
pub struct ReportedStep<'a> {
    /// The update
    pub update: FirmwareUpdate<'a>,
    /// What follows
    pub next: AfterReport,
}

/// The bootloader is being detected.
pub struct DetectingBootloader<'a> {
    /// The update
    pub update: FirmwareUpdate<'a>,
}

/// The firmware image is being parsed.
pub struct ParsingImage<'a> {
    /// The update
    pub update: FirmwareUpdate<'a>,
    /// The bootloader that the image is made for
    pub bootloader_type: BootloaderType,
}

/// The state of the device is being queried.
pub struct QueryingState<'a> {
    /// The update
    pub update: FirmwareUpdate<'a>,
    /// The new image
    pub image: NewImage,
}

/// The firmware is being uploaded.
pub struct UploadingImage<'a> {
    /// The update
    pub update: FirmwareUpdate<'a>,
    /// The new image
    pub image: NewImage,
}

/// The firmware is being activated.
pub struct ActivatingImage<'a> {
    /// The update
    pub update: FirmwareUpdate<'a>,
    /// The new image
    pub image: NewImage,
}

/// The state of the device is being queried after the firmware could not be activated.
pub struct RecheckingState<'a> {
    /// The update
    pub update: FirmwareUpdate<'a>,
    /// The new image
    pub image: NewImage,
    /// Why the firmware could not be activated
    pub error: MCUmgrClientError,
}

/// The device is being rebooted.
pub struct Rebooting;

/// What has to be done next to update the firmware.
pub enum FirmwareUpdateAction<'a> {
    /// Report a step to the user
    Report {
        /// The step that is reported
        step: FirmwareUpdateStep,
        /// Takes the user's decision on whether to go on
        resume: ReportedStep<'a>,
    },
    /// Query information on the bootloader
    DetectBootloader(DetectingBootloader<'a>),
    /// Parse the firmware image
    ParseImage(ParsingImage<'a>),
    /// Query the image state
    GetState(QueryingState<'a>),
    /// Upload the firmware image
    Upload(UploadingImage<'a>),
    /// Set the image state
    SetState(ActivatingImage<'a>),
    /// Query the image state again
    Recheck(RecheckingState<'a>),
    /// Reset the device
    Reset(Rebooting),
    /// Nothing, the update is over
    Finished(Result<(), FirmwareUpdateError>),
}

/// The first image that meets a condition.
pub open spec fn first_image(images: Seq<ImageState>, p: spec_fn(ImageState) -> bool) -> Option<
    ImageState,
>
    decreases images.len(),
{
    if images.len() == 0 {
        None
    } else if p(images[0]) {
        Some(images[0])
    } else {
        first_image(images.drop_first(), p)
    }
}

/// The target image is the one that runs.
pub open spec fn runs(img: ImageState) -> bool {
    img.image == TARGET_IMAGE && img.active
}

/// The target image lies in the first slot.
pub open spec fn in_first_slot(img: ImageState) -> bool {
    img.image == TARGET_IMAGE && img.slot == 0
}

/// The current state of the target image: the first active slot, or else its first slot.
pub open spec fn current_image(images: Seq<ImageState>) -> Option<ImageState> {
    match first_image(images, |img: ImageState| runs(img)) {
        Some(img) => Some(img),
        None => first_image(images, |img: ImageState| in_first_slot(img)),
    }
}

/// The first slot of the target image holds the image with the given hash.
pub open spec fn holds_in_first_slot(images: Seq<ImageState>, hash: Seq<u8>) -> bool {
    exists|i: int|
        0 <= i < images.len() && in_first_slot(#[trigger] images[i]) && hash_is(
            images[i].hash,
            hash,
        )
}

/// The firmware that is currently installed on the device is the one with the given hash.
pub open spec fn is_installed(images: Seq<ImageState>, hash: Seq<u8>) -> bool {
    current_image(images) matches Some(img) && hash_is(img.hash, hash)
}

/// Returns the current state of the target image.
pub fn find_current_image(images: &Vec<ImageState>) -> (r: Option<&ImageState>)
    ensures
        match r {
            Some(img) => current_image(images@) == Some(*img),
            None => current_image(images@) is None,
        },
{
    let ghost runs_here = |img: ImageState| runs(img);
    let ghost in_slot = |img: ImageState| in_first_slot(img);
    let mut i: usize = 0;
    assert(images@.skip(0) =~= images@);
    while i < images.len()
        invariant
            i <= images@.len(),
            runs_here == (|img: ImageState| runs(img)),
            first_image(images@, runs_here) == first_image(images@.skip(i as int), runs_here),
        decreases images@.len() - i,
    {
        assert(images@.skip(i as int)[0] == images@[i as int]);
        assert(images@.skip(i as int).drop_first() =~= images@.skip(i + 1));
        if images[i].image == TARGET_IMAGE && images[i].active {
            return Some(&images[i]);
        }
        i += 1;
    }
    let mut i: usize = 0;
    while i < images.len()
        invariant
            i <= images@.len(),
            in_slot == (|img: ImageState| in_first_slot(img)),
            first_image(images@, |img: ImageState| runs(img)) is None,
            first_image(images@, in_slot) == first_image(images@.skip(i as int), in_slot),
        decreases images@.len() - i,
    {
        assert(images@.skip(i as int)[0] == images@[i as int]);
        assert(images@.skip(i as int).drop_first() =~= images@.skip(i + 1));
        if images[i].image == TARGET_IMAGE && images[i].slot == 0 {
            return Some(&images[i]);
        }
        i += 1;
    }
    None
}

/// Whether the first slot of the target image holds the image with the given hash.
pub fn first_slot_holds(images: &Vec<ImageState>, hash: &[u8; 32]) -> (r: bool)
    ensures
        r == holds_in_first_slot(images@, hash@),
{
    let mut i: usize = 0;
    while i < images.len()
        invariant
            i <= images@.len(),
            forall|j: int|
                0 <= j < i ==> !(in_first_slot(#[trigger] images@[j]) && hash_is(
                    images@[j].hash,
                    hash@,
                )),
        decreases images@.len() - i,
    {
        let img = &images[i];
        if img.image == TARGET_IMAGE && img.slot == 0 && same_hash(&img.hash, hash) {
            assert(in_first_slot(images@[i as int]));
            return true;
        }
        i += 1;
    }
    false
}

impl<'a> FirmwareUpdate<'a> {
    /// Reports a step, and then continues.
    pub open spec fn report(self, step: FirmwareUpdateStep, next: AfterReport) -> (
    FirmwareUpdateAction<'a>) {
        FirmwareUpdateAction::Report { step, resume: ReportedStep { update: self, next } }
    }

    /// How an update starts: with the detection of the bootloader, unless it is given.
    pub open spec fn start(self) -> FirmwareUpdateAction<'a> {
        match self.params.bootloader_type {
            Some(bootloader_type) => self.report(
                FirmwareUpdateStep::ParsingFirmwareImage,
                AfterReport::ParseImage(bootloader_type),
            ),
            None => self.report(
                FirmwareUpdateStep::DetectingBootloader,
                AfterReport::DetectBootloader,
            ),
        }
    }

    /// How an update ends once the new image is activated: with a reboot, unless that is to be
    /// skipped.
    pub open spec fn activated(self) -> FirmwareUpdateAction<'a> {
        if self.params.skip_reboot {
            FirmwareUpdateAction::Finished(Ok(()))
        } else {
            self.report(FirmwareUpdateStep::TriggeringReboot, AfterReport::Reset)
        }
    }

    fn make_report(self, step: FirmwareUpdateStep, next: AfterReport) -> (action:
        FirmwareUpdateAction<'a>)
        ensures
            action == self.report(step, next),
    {
        FirmwareUpdateAction::Report { step, resume: ReportedStep { update: self, next } }
    }

    /// Starts the update.
    pub fn begin(self) -> (action: FirmwareUpdateAction<'a>)
        ensures
            action == self.start(),
    {
        match self.params.bootloader_type {
            Some(bootloader_type) => self.make_report(
                FirmwareUpdateStep::ParsingFirmwareImage,
                AfterReport::ParseImage(bootloader_type),
            ),
            None => self.make_report(
                FirmwareUpdateStep::DetectingBootloader,
                AfterReport::DetectBootloader,
            ),
        }
    }

    fn finish(self) -> (action: FirmwareUpdateAction<'a>)
        ensures
            action == self.activated(),
    {
        if !self.params.skip_reboot {
            self.make_report(FirmwareUpdateStep::TriggeringReboot, AfterReport::Reset)
        } else {
            FirmwareUpdateAction::Finished(Ok(()))
        }
    }
}

impl<'a> ReportedStep<'a> {
    /// What follows the report.
    pub open spec fn resumed(self, accepted: bool) -> FirmwareUpdateAction<'a> {
        let update = self.update;
        if !accepted {
            FirmwareUpdateAction::Finished(Err(FirmwareUpdateError::ProgressCallbackError))
        } else {
            match self.next {
                AfterReport::DetectBootloader => FirmwareUpdateAction::DetectBootloader(
                    DetectingBootloader { update },
                ),
                AfterReport::AnnounceParsing(bootloader_type) => update.report(
                    FirmwareUpdateStep::ParsingFirmwareImage,
                    AfterReport::ParseImage(bootloader_type),
                ),
                AfterReport::ParseImage(bootloader_type) => FirmwareUpdateAction::ParseImage(
                    ParsingImage { update, bootloader_type },
                ),
                AfterReport::GetState(image) => FirmwareUpdateAction::GetState(
                    QueryingState { update, image },
                ),
                AfterReport::AnnounceUpload { image, installed } => if installed {
                    FirmwareUpdateAction::Finished(Err(FirmwareUpdateError::AlreadyInstalled))
                } else {
                    update.report(FirmwareUpdateStep::UploadingFirmware, AfterReport::Upload(image))
                },
                AfterReport::Upload(image) => FirmwareUpdateAction::Upload(
                    UploadingImage { update, image },
                ),
                AfterReport::SetState(image) => FirmwareUpdateAction::SetState(
                    ActivatingImage { update, image },
                ),
                AfterReport::Recheck { image, error } => FirmwareUpdateAction::Recheck(
                    RecheckingState { update, image, error },
                ),
                AfterReport::Reset => FirmwareUpdateAction::Reset(Rebooting),
            }
        }
    }

    /// Continues with the user's decision on whether to go on.
    pub fn on_report(self, accepted: bool) -> (action: FirmwareUpdateAction<'a>)
        ensures
            action == self.resumed(accepted),
    {
        let update = self.update;
        if !accepted {
            return FirmwareUpdateAction::Finished(Err(FirmwareUpdateError::ProgressCallbackError));
        }
        match self.next {
            AfterReport::DetectBootloader => FirmwareUpdateAction::DetectBootloader(
                DetectingBootloader { update },
            ),
            AfterReport::AnnounceParsing(bootloader_type) => update.make_report(
                FirmwareUpdateStep::ParsingFirmwareImage,
                AfterReport::ParseImage(bootloader_type),
            ),
            AfterReport::ParseImage(bootloader_type) => FirmwareUpdateAction::ParseImage(
                ParsingImage { update, bootloader_type },
            ),
            AfterReport::GetState(image) => FirmwareUpdateAction::GetState(
                QueryingState { update, image },
            ),
            AfterReport::AnnounceUpload { image, installed } => if installed {
                FirmwareUpdateAction::Finished(Err(FirmwareUpdateError::AlreadyInstalled))
            } else {
                update.make_report(
                    FirmwareUpdateStep::UploadingFirmware,
                    AfterReport::Upload(image),
                )
            },
            AfterReport::Upload(image) => FirmwareUpdateAction::Upload(
                UploadingImage { update, image },
            ),
            AfterReport::SetState(image) => FirmwareUpdateAction::SetState(
                ActivatingImage { update, image },
            ),
            AfterReport::Recheck { image, error } => FirmwareUpdateAction::Recheck(
                RecheckingState { update, image, error },
            ),
            AfterReport::Reset => FirmwareUpdateAction::Reset(Rebooting),
        }
    }
}

impl<'a> DetectingBootloader<'a> {
    /// The request that queries information on the bootloader.
    pub fn request<T>(&self, client: &MCUmgrClient<T>) -> (r: Request)
        ensures
            r.carries(os::BootloaderInfo),
            r.use_retries,
    {
        client.os_bootloader_info()
    }

    /// What follows the detection of the bootloader.
    pub open spec fn resumed(self, info: Result<BootloaderInfo, MCUmgrClientError>) -> (
    FirmwareUpdateAction<'a>) {
        match info {
            Err(err) => FirmwareUpdateAction::Finished(
                Err(FirmwareUpdateError::BootloaderDetectionFailed(err)),
            ),
            Ok(BootloaderInfo::Unknown { name }) => FirmwareUpdateAction::Finished(
                Err(FirmwareUpdateError::BootloaderNotSupported(name)),
            ),
            Ok(BootloaderInfo::MCUboot { .. }) => self.update.report(
                FirmwareUpdateStep::BootloaderFound(BootloaderType::MCUboot),
                AfterReport::AnnounceParsing(BootloaderType::MCUboot),
            ),
        }
    }

    /// Continues with the information on the bootloader.
    pub fn on_info(self, info: Result<BootloaderInfo, MCUmgrClientError>) -> (action:
        FirmwareUpdateAction<'a>)
        ensures
            action == self.resumed(info),
    {
        match info {
            Err(err) => FirmwareUpdateAction::Finished(
                Err(FirmwareUpdateError::BootloaderDetectionFailed(err)),
            ),
            Ok(info) => match info.get_bootloader_type() {
                Err(name) => FirmwareUpdateAction::Finished(
                    Err(FirmwareUpdateError::BootloaderNotSupported(name)),
                ),
                Ok(bootloader_type) => self.update.make_report(
                    FirmwareUpdateStep::BootloaderFound(bootloader_type),
                    AfterReport::AnnounceParsing(bootloader_type),
                ),
            },
        }
    }
}

impl<'a> ParsingImage<'a> {
    /// What follows the parsing of the firmware image.
    pub open spec fn resumed(self, info: Result<ImageInfo, ImageParseError>) -> (
    FirmwareUpdateAction<'a>) {
        match info {
            Err(err) => FirmwareUpdateAction::Finished(
                Err(FirmwareUpdateError::InvalidMcuBootFirmwareImage(err)),
            ),
            Ok(info) => self.update.report(
                FirmwareUpdateStep::QueryingDeviceState,
                AfterReport::GetState(
                    NewImage {
                        bootloader_type: self.bootloader_type,
                        version: info.version,
                        hash: info.hash,
                    },
                ),
            ),
        }
    }

    /// Continues with the information that was parsed.
    pub fn on_parsed(self, info: Result<ImageInfo, ImageParseError>) -> (action:
        FirmwareUpdateAction<'a>)
        ensures
            action == self.resumed(info),
    {
        match info {
            Err(err) => FirmwareUpdateAction::Finished(
                Err(FirmwareUpdateError::InvalidMcuBootFirmwareImage(err)),
            ),
            Ok(info) => self.update.make_report(
                FirmwareUpdateStep::QueryingDeviceState,
                AfterReport::GetState(
                    NewImage {
                        bootloader_type: self.bootloader_type,
                        version: info.version,
                        hash: info.hash,
                    },
                ),
            ),
        }
    }
}

impl<'a> QueryingState<'a> {
    /// The request that queries the state of the device.
    pub fn request<T>(&self, client: &MCUmgrClient<T>) -> (r: Request)
        ensures
            r.carries(GetImageState),
            r.use_retries,
    {
        client.image_get_state()
    }

    /// The summary of the update.
    pub open spec fn summary(self, images: Seq<ImageState>) -> FirmwareUpdateStep {
        FirmwareUpdateStep::UpdateInfo {
            current_version: match current_image(images) {
                Some(img) => Some((img.version, img.hash)),
                None => None,
            },
            new_version: (self.image.version, self.image.hash),
        }
    }

    /// What follows the query for the state of the device.
    pub open spec fn resumed(self, state: Result<Vec<ImageState>, MCUmgrClientError>) -> (
    FirmwareUpdateAction<'a>) {
        match state {
            Err(err) => FirmwareUpdateAction::Finished(
                Err(FirmwareUpdateError::GetStateFailed(err)),
            ),
            Ok(images) => self.update.report(
                self.summary(images@),
                AfterReport::AnnounceUpload {
                    image: self.image,
                    installed: is_installed(images@, self.image.hash@),
                },
            ),
        }
    }

    /// Continues with the state of the device.
    pub fn on_state(self, state: Result<Vec<ImageState>, MCUmgrClientError>) -> (action:
        FirmwareUpdateAction<'a>)
        ensures
            action == self.resumed(state),
    {
        match state {
            Err(err) => FirmwareUpdateAction::Finished(
                Err(FirmwareUpdateError::GetStateFailed(err)),
            ),
            Ok(images) => {
                let active_image = find_current_image(&images);
                let current_version = match active_image {
                    Some(img) => Some((img.version.clone(), img.hash)),
                    None => None,
                };
                let installed = match active_image {
                    Some(img) => same_hash(&img.hash, &self.image.hash),
                    None => false,
                };
                let new_version = (self.image.version.clone(), self.image.hash);
                self.update.make_report(
                    FirmwareUpdateStep::UpdateInfo { current_version, new_version },
                    AfterReport::AnnounceUpload { image: self.image, installed },
                )
            },
        }
    }
}

impl<'a> UploadingImage<'a> {
    /// Starts the upload of the firmware image.
    pub fn begin_upload<T>(&self, client: &MCUmgrClient<T>) -> (step: ImageUploadStep<'a>)
        ensures
            step@ == upload_start(
                client.smp_frame_size as int,
                self.update.firmware@,
                None,
                self.update.checksum,
                self.update.params.upgrade_only,
                sha256_digest(self.update.firmware@),
            ),
    {
        client.image_upload(
            self.update.firmware,
            None,
            self.update.checksum,
            self.update.params.upgrade_only,
        )
    }

    /// The report for the progress of the upload itself.
    pub fn upload_report(&self, current: u64, total: u64) -> (r: (
        FirmwareUpdateStep,
        Option<(u64, u64)>,
    ))
        ensures
            r.0 is UploadingFirmware,
            r.1 == Some((current, total)),
    {
        (FirmwareUpdateStep::UploadingFirmware, Some((current, total)))
    }

    /// What follows the upload.
    pub open spec fn resumed(self, uploaded: Result<(), MCUmgrClientError>) -> (
    FirmwareUpdateAction<'a>) {
        match uploaded {
            Err(MCUmgrClientError::ProgressCallbackError) => FirmwareUpdateAction::Finished(
                Err(FirmwareUpdateError::ProgressCallbackError),
            ),
            Err(err) => FirmwareUpdateAction::Finished(
                Err(FirmwareUpdateError::ImageUploadFailed(err)),
            ),
            Ok(()) => self.update.report(
                FirmwareUpdateStep::ActivatingFirmware,
                AfterReport::SetState(self.image),
            ),
        }
    }

    /// Continues with the outcome of the upload.
    pub fn on_uploaded(self, uploaded: Result<(), MCUmgrClientError>) -> (action:
        FirmwareUpdateAction<'a>)
        ensures
            action == self.resumed(uploaded),
    {
        match uploaded {
            // Users expect this error when the progress callback errors
            Err(MCUmgrClientError::ProgressCallbackError) => FirmwareUpdateAction::Finished(
                Err(FirmwareUpdateError::ProgressCallbackError),
            ),
            Err(err) => FirmwareUpdateAction::Finished(
                Err(FirmwareUpdateError::ImageUploadFailed(err)),
            ),
            Ok(()) => self.update.make_report(
                FirmwareUpdateStep::ActivatingFirmware,
                AfterReport::SetState(self.image),
            ),
        }
    }
}

impl<'a> ActivatingImage<'a> {
    /// The request that activates the new image.
    pub fn request<T>(&self, client: &MCUmgrClient<T>) -> (r: Request)
        ensures
            r.header == set_state_header(),
            r.payload@ == map_bytes(
                set_state_fields(Some(self.image.hash@), self.update.params.force_confirm),
            ),
            r.use_retries,
    {
        client.image_set_state(Some(self.image.hash), self.update.params.force_confirm)
    }

    /// What follows the activation. If the command isn't supported, the image may have been
    /// written to the active slot directly.
    pub open spec fn resumed(self, state: Result<Vec<ImageState>, MCUmgrClientError>) -> (
    FirmwareUpdateAction<'a>) {
        match state {
            Ok(_) => self.update.activated(),
            Err(error) => if self.image.bootloader_type == BootloaderType::MCUboot
                && error.reports_unsupported() {
                self.update.report(
                    FirmwareUpdateStep::QueryingDeviceState,
                    AfterReport::Recheck { image: self.image, error },
                )
            } else {
                FirmwareUpdateAction::Finished(Err(FirmwareUpdateError::SetStateFailed(error)))
            },
        }
    }

    /// Continues with the outcome of the activation.
    pub fn on_state_set(self, state: Result<Vec<ImageState>, MCUmgrClientError>) -> (action:
        FirmwareUpdateAction<'a>)
        ensures
            action == self.resumed(state),
    {
        match state {
            Ok(_) => self.update.finish(),
            Err(error) => {
                // Special case: if the command isn't supported, we are most likely in
                // the MCUmgr recovery shell, which writes directly to the active slot
                // and does not support swapping.
                // Sanity check that the image is on the first position already to avoid false
                // positives of this exception.
                if self.image.bootloader_type == BootloaderType::MCUboot
                    && error.command_not_supported() {
                    self.update.make_report(
                        FirmwareUpdateStep::QueryingDeviceState,
                        AfterReport::Recheck { image: self.image, error },
                    )
                } else {
                    FirmwareUpdateAction::Finished(Err(FirmwareUpdateError::SetStateFailed(error)))
                }
            },
        }
    }
}

impl<'a> RecheckingState<'a> {
    /// The request that queries the state of the device again.
    pub fn request<T>(&self, client: &MCUmgrClient<T>) -> (r: Request)
        ensures
            r.carries(GetImageState),
            r.use_retries,
    {
        client.image_get_state()
    }

    /// What follows the second query for the state of the device.
    pub open spec fn resumed(self, state: Result<Vec<ImageState>, MCUmgrClientError>) -> (
    FirmwareUpdateAction<'a>) {
        match state {
            Err(err) => FirmwareUpdateAction::Finished(
                Err(FirmwareUpdateError::GetStateFailed(err)),
            ),
            Ok(images) => if holds_in_first_slot(images@, self.image.hash@) {
                self.update.activated()
            } else {
                FirmwareUpdateAction::Finished(
                    Err(FirmwareUpdateError::SetStateFailed(self.error)),
                )
            },
        }
    }

    /// Continues with the state of the device.
    pub fn on_state(self, state: Result<Vec<ImageState>, MCUmgrClientError>) -> (action:
        FirmwareUpdateAction<'a>)
        ensures
            action == self.resumed(state),
    {
        match state {
            Err(err) => FirmwareUpdateAction::Finished(
                Err(FirmwareUpdateError::GetStateFailed(err)),
            ),
            Ok(images) => if first_slot_holds(&images, &self.image.hash) {
                self.update.finish()
            } else {
                FirmwareUpdateAction::Finished(
                    Err(FirmwareUpdateError::SetStateFailed(self.error)),
                )
            },
        }
    }
}

impl Rebooting {
    /// The request that resets the device.
    pub fn request<T>(&self, client: &MCUmgrClient<T>) -> (r: Request)
        ensures
            r.carries((SystemReset { force: false, boot_mode: None })),
            r.use_retries,
    {
        client.os_system_reset(false, None)
    }

    /// What follows the reset.
    pub open spec fn resumed(self, reset: Result<(), MCUmgrClientError>) -> Result<
        (),
        FirmwareUpdateError,
    > {
        match reset {
            Err(err) => Err(FirmwareUpdateError::RebootFailed(err)),
            Ok(()) => Ok(()),
        }
    }

    /// Finishes with the outcome of the reset.
    pub fn on_reset(self, reset: Result<(), MCUmgrClientError>) -> (r: Result<
        (),
        FirmwareUpdateError,
    >)
        ensures
            r == self.resumed(reset),
    {
        match reset {
            Err(err) => Err(FirmwareUpdateError::RebootFailed(err)),
            Ok(()) => Ok(()),
        }
    }
}

/// How everything outside of an update turns out.
pub struct Circumstances {
    /// Whether the user goes on after a report, given the number of reports before it. The
    /// reports on the progress of the upload itself belong to the outcome of the upload.
    pub accepts: spec_fn(nat, FirmwareUpdateStep) -> bool,
    /// The information on the bootloader
    pub bootloader: Result<BootloaderInfo, MCUmgrClientError>,
    /// What the firmware image tells about itself
    pub image_info: Result<ImageInfo, ImageParseError>,
    /// The image state before the upload
    pub state: Result<Vec<ImageState>, MCUmgrClientError>,
    /// The outcome of the upload
    pub uploaded: Result<(), MCUmgrClientError>,
    /// The outcome of the activation
    pub state_set: Result<Vec<ImageState>, MCUmgrClientError>,
    /// The image state after a failed activation
    pub rechecked: Result<Vec<ImageState>, MCUmgrClientError>,
    /// The outcome of the reset
    pub reset: Result<(), MCUmgrClientError>,
}

/// What an update does to the device.
pub enum Operation {
    /// Upload the firmware image
    Upload,
    /// Set the state of the image with the given hash
    SetState {
        hash: Seq<u8>,
        confirm: bool,
    },
    /// Reset the device
    Reset,
}

/// How many more actions an update takes at most.
pub open spec fn remaining_actions(action: FirmwareUpdateAction<'_>) -> int {
    match action {
        FirmwareUpdateAction::Finished(_) => 0,
        FirmwareUpdateAction::Reset(_) => 1,
        FirmwareUpdateAction::Recheck(_) => 3,
        FirmwareUpdateAction::SetState(_) => 5,
        FirmwareUpdateAction::Upload(_) => 7,
        FirmwareUpdateAction::GetState(_) => 10,
        FirmwareUpdateAction::ParseImage(_) => 12,
        FirmwareUpdateAction::DetectBootloader(_) => 15,
        FirmwareUpdateAction::Report { resume, .. } => match resume.next {
            AfterReport::Reset => 2,
            AfterReport::Recheck { .. } => 4,
            AfterReport::SetState(_) => 6,
            AfterReport::Upload(_) => 8,
            AfterReport::AnnounceUpload { .. } => 9,
            AfterReport::GetState(_) => 11,
            AfterReport::ParseImage(_) => 13,
            AfterReport::AnnounceParsing(_) => 14,
            AfterReport::DetectBootloader => 16,
        },
    }
}

/// The result of an update under the given circumstances, from an action on that follows the
/// given number of reports, and what it does to the device, in order.
pub open spec fn update_outcome(
    action: FirmwareUpdateAction<'_>,
    c: Circumstances,
    reports: nat,
) -> (Result<(), FirmwareUpdateError>, Seq<Operation>)
    decreases remaining_actions(action),
{
    match action {
        FirmwareUpdateAction::Finished(result) => (result, Seq::empty()),
        FirmwareUpdateAction::Report { step, resume } => update_outcome(
            resume.resumed((c.accepts)(reports, step)),
            c,
            reports + 1,
        ),
        FirmwareUpdateAction::DetectBootloader(detecting) => update_outcome(
            detecting.resumed(c.bootloader),
            c,
            reports,
        ),
        FirmwareUpdateAction::ParseImage(parsing) => update_outcome(
            parsing.resumed(c.image_info),
            c,
            reports,
        ),
        FirmwareUpdateAction::GetState(querying) => update_outcome(
            querying.resumed(c.state),
            c,
            reports,
        ),
        FirmwareUpdateAction::Upload(uploading) => {
            let (result, rest) = update_outcome(uploading.resumed(c.uploaded), c, reports);
            (result, seq![Operation::Upload] + rest)
        },
        FirmwareUpdateAction::SetState(activating) => {
            let (result, rest) = update_outcome(activating.resumed(c.state_set), c, reports);
            let operation = Operation::SetState {
                hash: activating.image.hash@,
                confirm: activating.update.params.force_confirm,
            };
            (result, seq![operation] + rest)
        },
        FirmwareUpdateAction::Recheck(rechecking) => update_outcome(
            rechecking.resumed(c.rechecked),
            c,
            reports,
        ),
        FirmwareUpdateAction::Reset(rebooting) => (
            rebooting.resumed(c.reset),
            seq![Operation::Reset],
        ),
    }
}

/// The number of reports before the one that the firmware image is parsed.
pub open spec fn reports_before_parsing(params: FirmwareUpdateParams) -> nat {
    if params.bootloader_type is Some {
        0
    } else {
        2
    }
}

impl Circumstances {
    /// The bootloader is given, or the device runs MCUboot and the user goes on.
    pub open spec fn bootloader_known(self, params: FirmwareUpdateParams) -> bool {
        params.bootloader_type is Some || {
            &&& (self.accepts)(0, FirmwareUpdateStep::DetectingBootloader)
            &&& self.bootloader matches Ok(BootloaderInfo::MCUboot { .. })
            &&& (self.accepts)(1, FirmwareUpdateStep::BootloaderFound(BootloaderType::MCUboot))
        }
    }

    /// The firmware image is valid and not installed yet, and the user goes on, if the
    /// bootloader is known after the given number of reports.
    pub open spec fn image_is_new(self, reports: nat) -> bool {
        &&& (self.accepts)(reports, FirmwareUpdateStep::ParsingFirmwareImage)
        &&& self.image_info is Ok
        &&& (self.accepts)(reports + 1, FirmwareUpdateStep::QueryingDeviceState)
        &&& self.state matches Ok(images)
        &&& !is_installed(images@, self.image_info->Ok_0.hash@)
        &&& (self.accepts)(
            reports + 2,
            FirmwareUpdateStep::UpdateInfo {
                current_version: match current_image(images@) {
                    Some(img) => Some((img.version, img.hash)),
                    None => None,
                },
                new_version: (self.image_info->Ok_0.version, self.image_info->Ok_0.hash),
            },
        )
        &&& (self.accepts)(reports + 3, FirmwareUpdateStep::UploadingFirmware)
    }

    /// The device activates the new image, or it does not support that but holds the new image
    /// in its first slot already, and the user goes on, if the image is uploaded after the given
    /// number of reports.
    pub open spec fn image_gets_active(self, reports: nat) -> bool {
        &&& (self.accepts)(reports, FirmwareUpdateStep::ActivatingFirmware)
        &&& match self.state_set {
            Ok(_) => true,
            Err(err) => {
                &&& err.reports_unsupported()
                &&& (self.accepts)(reports + 1, FirmwareUpdateStep::QueryingDeviceState)
                &&& self.rechecked matches Ok(images) && holds_in_first_slot(
                    images@,
                    self.image_info->Ok_0.hash@,
                )
            },
        }
    }

    /// The number of reports before the image is active, if it is uploaded after the given
    /// number of reports. The state of the device is only queried again if the activation failed.
    pub open spec fn reports_before_reboot(self, reports: nat) -> nat {
        if self.state_set is Ok {
            reports + 1
        } else {
            reports + 2
        }
    }

    /// The reboot is skipped, or the device performs it and the user goes on, if the image is
    /// active after the given number of reports.
    pub open spec fn reboots(self, params: FirmwareUpdateParams, reports: nat) -> bool {
        params.skip_reboot || {
            &&& (self.accepts)(reports, FirmwareUpdateStep::TriggeringReboot)
            &&& self.reset is Ok
        }
    }

    /// The image gets active, and the device reboots if it is asked to, if the image is uploaded
    /// after the given number of reports.
    pub open spec fn takes_effect(self, params: FirmwareUpdateParams, reports: nat) -> bool {
        &&& self.image_gets_active(reports)
        &&& self.reboots(params, self.reports_before_reboot(reports))
    }
}

/// What an update does to the device once the new image is active, after the given number of
/// reports.
pub open spec fn final_operations(params: FirmwareUpdateParams, c: Circumstances, reports: nat) -> Seq<
    Operation,
> {
    if !params.skip_reboot && (c.accepts)(reports, FirmwareUpdateStep::TriggeringReboot) {
        seq![Operation::Reset]
    } else {
        Seq::empty()
    }
}

/// What an update does to the device once the new image is uploaded, after the given number of
/// reports.
pub open spec fn activation_operations(
    params: FirmwareUpdateParams,
    hash: Seq<u8>,
    c: Circumstances,
    reports: nat,
) -> Seq<Operation> {
    if !(c.accepts)(reports, FirmwareUpdateStep::ActivatingFirmware) {
        Seq::empty()
    } else {
        seq![Operation::SetState { hash, confirm: params.force_confirm }]
            + if c.image_gets_active(reports) {
            final_operations(params, c, c.reports_before_reboot(reports))
        } else {
            Seq::empty()
        }
    }
}

/// What an update does to the device.
pub open spec fn update_operations(params: FirmwareUpdateParams, c: Circumstances) -> Seq<
    Operation,
> {
    let parsing = reports_before_parsing(params);
    if !c.bootloader_known(params) || !c.image_is_new(parsing) {
        Seq::empty()
    } else {
        seq![Operation::Upload] + if c.uploaded is Ok {
            activation_operations(params, c.image_info->Ok_0.hash@, c, parsing + 4)
        } else {
            Seq::empty()
        }
    }
}

/// The end of an update, from the moment the new image is active.
proof fn lemma_active(update: FirmwareUpdate<'_>, c: Circumstances, reports: nat)
    ensures
        update_outcome(update.activated(), c, reports).0 is Ok <==> c.reboots(
            update.params,
            reports,
        ),
        update_outcome(update.activated(), c, reports).1 == final_operations(
            update.params,
            c,
            reports,
        ),
{
    reveal_with_fuel(update_outcome, 4);
}

/// The end of an update, from the moment the new image is uploaded.
proof fn lemma_uploaded(update: FirmwareUpdate<'_>, image: NewImage, c: Circumstances, reports: nat)
    requires
        c.image_info is Ok,
        image.hash == c.image_info->Ok_0.hash,
    ensures
        ({
            let (result, operations) = update_outcome(
                update.report(
                    FirmwareUpdateStep::ActivatingFirmware,
                    AfterReport::SetState(image),
                ),
                c,
                reports,
            );
            &&& result is Ok <==> c.takes_effect(update.params, reports)
            &&& operations == activation_operations(update.params, image.hash@, c, reports)
        }),
{
    lemma_active(update, c, c.reports_before_reboot(reports));
    let activating = ActivatingImage { update, image };
    let action = FirmwareUpdateAction::SetState(activating);
    let next = reports + 1;
    let rest = update_outcome(activating.resumed(c.state_set), c, next);
    if c.state_set is Err && c.state_set->Err_0.reports_unsupported() {
        let error = c.state_set->Err_0;
        let rechecking = RecheckingState { update, image, error };
        let accepted = (c.accepts)(next, FirmwareUpdateStep::QueryingDeviceState);
        assert(rest == update_outcome(
            ReportedStep { update, next: AfterReport::Recheck { image, error } }.resumed(accepted),
            c,
            next + 1,
        ));
        if accepted {
            assert(rest == update_outcome(FirmwareUpdateAction::Recheck(rechecking), c, next + 1));
            assert(rest == update_outcome(rechecking.resumed(c.rechecked), c, next + 1));
        }
    }
    assert(update_outcome(action, c, next).0 == rest.0);
    assert(update_outcome(action, c, next).1 == seq![
        Operation::SetState { hash: image.hash@, confirm: update.params.force_confirm },
    ] + rest.1);
    let reported = ReportedStep { update, next: AfterReport::SetState(image) };
    let report = update.report(
        FirmwareUpdateStep::ActivatingFirmware,
        AfterReport::SetState(image),
    );
    assert(update_outcome(report, c, reports) == update_outcome(
        reported.resumed((c.accepts)(reports, FirmwareUpdateStep::ActivatingFirmware)),
        c,
        next,
    ));
}

/// The end of an update, from the moment the new image is to be uploaded.
proof fn lemma_uploading(update: FirmwareUpdate<'_>, image: NewImage, c: Circumstances, reports: nat)
    requires
        c.image_info is Ok,
        image.hash == c.image_info->Ok_0.hash,
    ensures
        ({
            let (result, operations) = update_outcome(
                FirmwareUpdateAction::Upload(UploadingImage { update, image }),
                c,
                reports,
            );
            &&& result is Ok <==> c.uploaded is Ok && c.takes_effect(update.params, reports)
            &&& operations == seq![Operation::Upload] + if c.uploaded is Ok {
                activation_operations(update.params, image.hash@, c, reports)
            } else {
                Seq::empty()
            }
        }),
{
    lemma_uploaded(update, image, c, reports);
    let uploading = UploadingImage { update, image };
    let rest = update_outcome(uploading.resumed(c.uploaded), c, reports);
    assert(update_outcome(FirmwareUpdateAction::Upload(uploading), c, reports).1 == seq![
        Operation::Upload,
    ] + rest.1);
}

/// The end of an update, from the moment the bootloader is known.
proof fn lemma_parsing(
    update: FirmwareUpdate<'_>,
    bootloader_type: BootloaderType,
    c: Circumstances,
    reports: nat,
)
    ensures
        ({
            let (result, operations) = update_outcome(
                update.report(
                    FirmwareUpdateStep::ParsingFirmwareImage,
                    AfterReport::ParseImage(bootloader_type),
                ),
                c,
                reports,
            );
            &&& result is Ok <==> c.image_is_new(reports) && c.uploaded is Ok && c.takes_effect(
                update.params,
                reports + 4,
            )
            &&& operations == if c.image_is_new(reports) {
                seq![Operation::Upload] + if c.uploaded is Ok {
                    activation_operations(
                        update.params,
                        c.image_info->Ok_0.hash@,
                        c,
                        reports + 4,
                    )
                } else {
                    Seq::empty()
                }
            } else {
                Seq::empty()
            }
        }),
{
    if c.image_info is Ok {
        let info = c.image_info->Ok_0;
        let image = NewImage { bootloader_type, version: info.version, hash: info.hash };
        lemma_uploading(update, image, c, reports + 4);
        let announced = update.report(
            FirmwareUpdateStep::UploadingFirmware,
            AfterReport::Upload(image),
        );
        assert(update_outcome(announced, c, reports + 3) == update_outcome(
            ReportedStep { update, next: AfterReport::Upload(image) }.resumed(
                (c.accepts)(reports + 3, FirmwareUpdateStep::UploadingFirmware),
            ),
            c,
            reports + 4,
        ));
        if c.state is Ok {
            let images = c.state->Ok_0@;
            let installed = is_installed(images, image.hash@);
            let querying = QueryingState { update, image };
            let next = AfterReport::AnnounceUpload { image, installed };
            let summary = querying.summary(images);
            assert(update_outcome(update.report(summary, next), c, reports + 2) == update_outcome(
                ReportedStep { update, next }.resumed((c.accepts)(reports + 2, summary)),
                c,
                reports + 3,
            ));
            assert(update_outcome(FirmwareUpdateAction::GetState(querying), c, reports + 2)
                == update_outcome(update.report(summary, next), c, reports + 2));
        }
    }
    reveal_with_fuel(update_outcome, 6);
}

/// When an update succeeds, and what it does to the device on the way.
///
/// An update succeeds exactly if the bootloader is known, the firmware image is valid and not
/// installed yet, the upload succeeds, the image gets active, the device reboots if it is asked
/// to, and the user accepts every report. The user may answer each report differently, even if
/// it is about the same step as an earlier one.
pub proof fn law_update_outcome(update: FirmwareUpdate<'_>, c: Circumstances)
    ensures
        update_outcome(update.start(), c, 0).0 is Ok <==> {
            let parsing = reports_before_parsing(update.params);
            &&& c.bootloader_known(update.params)
            &&& c.image_is_new(parsing)
            &&& c.uploaded is Ok
            &&& c.takes_effect(update.params, parsing + 4)
        },
        update_outcome(update.start(), c, 0).1 == update_operations(update.params, c),
{
    match update.params.bootloader_type {
        Some(bootloader_type) => {
            lemma_parsing(update, bootloader_type, c, 0);
        },
        None => {
            lemma_parsing(update, BootloaderType::MCUboot, c, 2);
            reveal_with_fuel(update_outcome, 5);
        },
    }
}

/// Firmware that is installed already is neither uploaded nor activated, and the device is not
/// reset. Unless something else is wrong, that is what the update reports.
pub proof fn law_installed_firmware_is_left_alone(update: FirmwareUpdate<'_>, c: Circumstances)
    requires
        c.image_info is Ok,
        c.state is Ok,
        is_installed(c.state->Ok_0@, c.image_info->Ok_0.hash@),
    ensures
        update_outcome(update.start(), c, 0).0 is Err,
        update_outcome(update.start(), c, 0).1.len() == 0,
        c.bootloader_known(update.params) && (forall|n: nat, step: FirmwareUpdateStep|
            #[trigger] (c.accepts)(n, step)) ==> update_outcome(update.start(), c, 0).0 == Err::<
            (),
            FirmwareUpdateError,
        >(FirmwareUpdateError::AlreadyInstalled),
{
    law_update_outcome(update, c);
    reveal_with_fuel(update_outcome, 12);
}

/// A device is only reset if that was not to be skipped, after the new image was uploaded and
/// got active.
pub proof fn law_reset_follows_activation(update: FirmwareUpdate<'_>, c: Circumstances)
    requires
        update_outcome(update.start(), c, 0).1.contains(Operation::Reset),
    ensures
        !update.params.skip_reboot,
        c.uploaded is Ok,
        c.image_gets_active(reports_before_parsing(update.params) + 4),
        update_outcome(update.start(), c, 0).1 == seq![
            Operation::Upload,
            Operation::SetState {
                hash: c.image_info->Ok_0.hash@,
                confirm: update.params.force_confirm,
            },
            Operation::Reset,
        ],
{
    law_update_outcome(update, c);
    assert(update_outcome(update.start(), c, 0).1 =~= seq![
        Operation::Upload,
        Operation::SetState {
            hash: c.image_info->Ok_0.hash@,
            confirm: update.params.force_confirm,
        },
        Operation::Reset,
    ]);
}

/// An update ends as soon as the user refuses to go on.
pub proof fn law_refused_report_ends_update(
    step: FirmwareUpdateStep,
    resume: ReportedStep<'_>,
    c: Circumstances,
    reports: nat,
)
    requires
        !(c.accepts)(reports, step),
    ensures
        update_outcome(FirmwareUpdateAction::Report { step, resume }, c, reports) == (
            Err::<(), FirmwareUpdateError>(FirmwareUpdateError::ProgressCallbackError),
            Seq::<Operation>::empty(),
        ),
{
    reveal_with_fuel(update_outcome, 2);
}

} // verus!
