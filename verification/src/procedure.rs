//! The installation run as a state machine: each state names the one piece
//! of outside work to do next (an `Action`), and the outcome of that work
//! (an `Event`) decides the next state. Whoever drives the run performs the
//! actions; every decision is taken here.

use crate::settings::{entries_flag, entries_value, Settings};
use crate::system::{substitute_vars, ProductInfo};
use crate::text::{push_signed_decimal, signed_decimal};
use crate::imaging::ImagingApp;
use vstd::prelude::*;

verus! {

/// A program to run and its arguments.
pub struct CommandSpec {
    pub program: String,
    pub args: Vec<String>,
}

/// A command by its texts.
pub struct CommandView {
    pub program: Seq<char>,
    pub args: Seq<Seq<char>>,
}

impl View for CommandSpec {
    type V = CommandView;

    open spec fn view(&self) -> CommandView {
        CommandView { program: self.program@, args: self.args@.map_values(|a: String| a@) }
    }
}

/// The outside work the run asks for next.
pub enum Action {
    /// Run a program; answered by `Ran`.
    Run(CommandSpec),
    /// Tell whether a path exists; answered by `PathChecked`.
    CheckPath(String),
    /// Probe a URL; answered by `UrlChecked`.
    CheckUrl(String),
    /// Create a directory and its parents unless it exists; answered by `Completed`.
    EnsureDirectory(String),
    /// Download a URL to a file; answered by `Downloaded`.
    Download { url: String, destination: String },
    /// Extract a zip archive over a directory; answered by `Extracted`.
    ExtractZip { archive: String, destination: String },
    /// Delete a file, ignoring failure; answered by `Completed`.
    RemoveFile(String),
    /// Hand a status to the form; answered by `Completed`.
    Publish(String),
    /// Read `Settings.ini` anew; answered by `SettingsRead`.
    ReadSettings,
    /// Nothing more to do.
    Stop,
}

pub enum ActionView {
    Run(CommandView),
    CheckPath(Seq<char>),
    CheckUrl(Seq<char>),
    EnsureDirectory(Seq<char>),
    Download { url: Seq<char>, destination: Seq<char> },
    ExtractZip { archive: Seq<char>, destination: Seq<char> },
    RemoveFile(Seq<char>),
    Publish(Seq<char>),
    ReadSettings,
    Stop,
}

impl View for Action {
    type V = ActionView;

    open spec fn view(&self) -> ActionView {
        match self {
            Action::Run(c) => ActionView::Run(c@),
            Action::CheckPath(p) => ActionView::CheckPath(p@),
            Action::CheckUrl(u) => ActionView::CheckUrl(u@),
            Action::EnsureDirectory(p) => ActionView::EnsureDirectory(p@),
            Action::Download { url, destination } => ActionView::Download {
                url: url@,
                destination: destination@,
            },
            Action::ExtractZip { archive, destination } => ActionView::ExtractZip {
                archive: archive@,
                destination: destination@,
            },
            Action::RemoveFile(p) => ActionView::RemoveFile(p@),
            Action::Publish(s) => ActionView::Publish(s@),
            Action::ReadSettings => ActionView::ReadSettings,
            Action::Stop => ActionView::Stop,
        }
    }
}

/// The outcome of an action.
pub enum Event {
    /// The action finished and has nothing to report.
    Completed,
    /// The program ran (`Ok`) or could not be started (`Err` with the
    /// operating system's error code).
    Ran(Result<(), i32>),
    /// Whether the path exists.
    PathChecked(bool),
    /// The probe's answer: `Ok(true)` when the URL answered.
    UrlChecked(Result<bool, ()>),
    /// The download succeeded, or failed with a message.
    Downloaded(Result<(), String>),
    /// The archive was extracted, or failed with a message.
    Extracted(Result<(), String>),
    /// The settings as they now read.
    SettingsRead(Settings),
}

pub enum EventView {
    Completed,
    Ran(Result<(), i32>),
    PathChecked(bool),
    UrlChecked(Result<bool, ()>),
    Downloaded(Result<(), Seq<char>>),
    Extracted(Result<(), Seq<char>>),
    SettingsRead(Map<Seq<char>, Map<Seq<char>, Option<Seq<char>>>>),
}

pub open spec fn message_view(r: Result<(), String>) -> Result<(), Seq<char>> {
    match r {
        Ok(_) => Ok(()),
        Err(e) => Err(e@),
    }
}

impl View for Event {
    type V = EventView;

    open spec fn view(&self) -> EventView {
        match self {
            Event::Completed => EventView::Completed,
            Event::Ran(r) => EventView::Ran(*r),
            Event::PathChecked(b) => EventView::PathChecked(*b),
            Event::UrlChecked(r) => EventView::UrlChecked(*r),
            Event::Downloaded(r) => EventView::Downloaded(message_view(*r)),
            Event::Extracted(r) => EventView::Extracted(message_view(*r)),
            Event::SettingsRead(settings) => EventView::SettingsRead(settings.entries()),
        }
    }
}

/// Whether an event is the outcome of an action of that kind.
pub open spec fn answers(action: ActionView, event: EventView) -> bool {
    match action {
        ActionView::Run(_) => event is Ran,
        ActionView::CheckPath(_) => event is PathChecked,
        ActionView::CheckUrl(_) => event is UrlChecked,
        ActionView::EnsureDirectory(_) => event is Completed,
        ActionView::Download { .. } => event is Downloaded,
        ActionView::ExtractZip { .. } => event is Extracted,
        ActionView::RemoveFile(_) => event is Completed,
        ActionView::Publish(_) => event is Completed,
        ActionView::ReadSettings => event is SettingsRead,
        ActionView::Stop => false,
    }
}

/// Which of the two downloadable archives.
#[derive(Clone, Copy, PartialEq, Eq, Structural)]
pub enum ZipKind {
    /// `stage_download_zip`, saved as `stage.zip`.
    Stage,
    /// `drivers_download_zip`, saved as `drivers.zip`.
    Drivers,
}

/// Where the handling of one archive stands.
#[derive(Clone, Copy, PartialEq, Eq, Structural)]
pub enum ZipStep {
    CheckingUrl,
    /// `answered` tells whether the URL answered its probe.
    EnsuringTemp(bool),
    /// `answered` tells whether the URL answered its probe.
    Downloading(bool),
    Extracting,
    Removing,
}

/// Where the staging of extra files stands.
#[derive(Clone, Copy, PartialEq, Eq, Structural)]
pub enum StagingState {
    CheckingFolder,
    CopyingFolder,
    Zip(ZipKind, ZipStep),
}

/// Where the application of the unattend file stands.
#[derive(Clone, Copy, PartialEq, Eq, Structural)]
pub enum UnattendState {
    CheckingUrl,
    EnsuringFolder,
    Downloading,
    Applying,
    Removing,
}

/// The steps whose outcome is reported to the form.
#[derive(Clone, Copy, PartialEq, Eq, Structural)]
pub enum Report {
    Wipe,
    Download,
    Apply,
    Bootloader,
    Staging,
}

/// Where the installation run stands.
pub enum InstallState {
    Wiping,
    Reporting(Report, String),
    Downloading,
    Applying,
    RemovingWim,
    InstallingBootloader,
    ReadingUnattendSettings,
    Unattend(UnattendConfig, UnattendState),
    ReadingStagingSettings,
    Staging(StagingConfig, StagingState),
    Finished,
}

pub enum InstallStateView {
    Wiping,
    Reporting(Report, Seq<char>),
    Downloading,
    Applying,
    RemovingWim,
    InstallingBootloader,
    ReadingUnattendSettings,
    Unattend(UnattendConfigView, UnattendState),
    ReadingStagingSettings,
    Staging(StagingConfigView, StagingState),
    Finished,
}

impl View for InstallState {
    type V = InstallStateView;

    open spec fn view(&self) -> InstallStateView {
        match self {
            InstallState::Wiping => InstallStateView::Wiping,
            InstallState::Reporting(r, m) => InstallStateView::Reporting(*r, m@),
            InstallState::Downloading => InstallStateView::Downloading,
            InstallState::Applying => InstallStateView::Applying,
            InstallState::RemovingWim => InstallStateView::RemovingWim,
            InstallState::InstallingBootloader => InstallStateView::InstallingBootloader,
            InstallState::ReadingUnattendSettings => InstallStateView::ReadingUnattendSettings,
            InstallState::Unattend(c, u) => InstallStateView::Unattend(c@, *u),
            InstallState::ReadingStagingSettings => InstallStateView::ReadingStagingSettings,
            InstallState::Staging(c, s) => InstallStateView::Staging(c@, *s),
            InstallState::Finished => InstallStateView::Finished,
        }
    }
}

/// What the unattend step reads of the settings when it starts.
pub struct UnattendConfig {
    /// `deploy.unattend_download_path`: an unattend file applied to the system.
    pub url: Option<String>,
    /// `deploy.stage_download_continue_on_error`: whether a URL that does not
    /// answer is still fetched.
    pub continue_on_error: bool,
}

pub struct UnattendConfigView {
    pub url: Option<Seq<char>>,
    pub continue_on_error: bool,
}

/// What staging reads of the settings when it starts.
pub struct StagingConfig {
    /// `deploy.stage_folder`: a folder copied over the installed system.
    pub stage_folder: Option<String>,
    /// `deploy.stage_download_zip`: an archive extracted over the system.
    pub stage_zip: Option<String>,
    /// `deploy.drivers_download_zip`: an archive of drivers extracted likewise.
    pub drivers_zip: Option<String>,
    /// `deploy.stage_download_continue_on_error`: whether an archive whose URL
    /// does not answer is still fetched.
    pub continue_on_error: bool,
}

pub struct StagingConfigView {
    pub stage_folder: Option<Seq<char>>,
    pub stage_zip: Option<Seq<char>>,
    pub drivers_zip: Option<Seq<char>>,
    pub continue_on_error: bool,
}

pub open spec fn optional_view(o: Option<String>) -> Option<Seq<char>> {
    match o {
        Some(v) => Some(v@),
        None => None,
    }
}

impl View for UnattendConfig {
    type V = UnattendConfigView;

    open spec fn view(&self) -> UnattendConfigView {
        UnattendConfigView { url: optional_view(self.url), continue_on_error: self.continue_on_error }
    }
}

impl View for StagingConfig {
    type V = StagingConfigView;

    open spec fn view(&self) -> StagingConfigView {
        StagingConfigView {
            stage_folder: optional_view(self.stage_folder),
            stage_zip: optional_view(self.stage_zip),
            drivers_zip: optional_view(self.drivers_zip),
            continue_on_error: self.continue_on_error,
        }
    }
}

/// What the unattend step takes from settings that hold `entries`.
pub open spec fn unattend_config_of(entries: Map<Seq<char>, Map<Seq<char>, Option<Seq<char>>>>) -> UnattendConfigView {
    UnattendConfigView {
        url: entries_value(entries, "deploy"@, "unattend_download_path"@),
        continue_on_error: entries_flag(entries, "deploy"@, "stage_download_continue_on_error"@),
    }
}

/// What staging takes from settings that hold `entries`.
pub open spec fn staging_config_of(entries: Map<Seq<char>, Map<Seq<char>, Option<Seq<char>>>>) -> StagingConfigView {
    StagingConfigView {
        stage_folder: entries_value(entries, "deploy"@, "stage_folder"@),
        stage_zip: entries_value(entries, "deploy"@, "stage_download_zip"@),
        drivers_zip: entries_value(entries, "deploy"@, "drivers_download_zip"@),
        continue_on_error: entries_flag(entries, "deploy"@, "stage_download_continue_on_error"@),
    }
}

/// Everything an installation run needs to know, fixed when it starts.
pub struct InstallJob {
    /// Where the image is downloaded from.
    pub url: String,
    /// Where the image is saved before it is applied.
    pub wim_path: String,
    /// Which image of the file to apply.
    pub image_index: u8,
    /// Where downloaded archives are kept.
    pub temp_files_path: String,
    /// Whether the tool runs in Windows PE; outside it the disk is never
    /// touched.
    pub in_pe: bool,
    /// The diskpart script that prepares the disk.
    pub format_script: String,
    /// The machine's identity, substituted into the paths of the settings.
    pub product: ProductInfo,
}

/// A setting that is given and not empty.
pub open spec fn is_set(o: Option<Seq<char>>) -> bool {
    match o {
        Some(v) => v.len() > 0,
        None => false,
    }
}

/// The text of a setting, empty when absent.
pub open spec fn setting_text(o: Option<Seq<char>>) -> Seq<char> {
    match o {
        Some(v) => v,
        None => Seq::empty(),
    }
}

pub open spec fn success_message(r: Report) -> Seq<char> {
    match r {
        Report::Wipe => "DiskWiped"@,
        Report::Download => "Downloaded"@,
        Report::Apply => "Extracted"@,
        Report::Bootloader => "Bootloaded"@,
        Report::Staging => "Staged"@,
    }
}

/// The status of a step that ran a program: its success message, or the
/// failure text followed by the error code.
pub open spec fn command_status(r: Report, failure: Seq<char>, outcome: Result<(), i32>) -> Seq<char> {
    match outcome {
        Ok(_) => success_message(r),
        Err(code) => failure + signed_decimal(code as int),
    }
}

/// The status of a step that reports its own failure text.
pub open spec fn message_status(r: Report, outcome: Result<(), Seq<char>>) -> Seq<char> {
    match outcome {
        Ok(_) => success_message(r),
        Err(e) => e,
    }
}

pub open spec fn after_staging(outcome: Result<(), Seq<char>>) -> InstallStateView {
    InstallStateView::Reporting(Report::Staging, message_status(Report::Staging, outcome))
}

pub open spec fn panther_folder() -> Seq<char> {
    "W:\\Windows\\Panther\\"@
}

pub open spec fn unattend_file() -> Seq<char> {
    "W:\\Windows\\Panther\\unattend.xml"@
}

pub open spec fn install_drive() -> Seq<char> {
    "W:\\"@
}

pub open spec fn command(program: Seq<char>, args: Seq<Seq<char>>) -> CommandView {
    CommandView { program, args }
}

impl InstallJob {
    pub open spec fn substituted(&self, s: Seq<char>) -> Seq<char> {
        substitute_vars(s, &self.product)
    }

    /// The URL of an archive, placeholders replaced.
    pub open spec fn zip_url(&self, c: StagingConfigView, k: ZipKind) -> Seq<char> {
        self.substituted(setting_text(zip_setting(c, k)))
    }

    /// Where an archive is saved: `temp\stage.zip` or `temp\drivers.zip`.
    pub open spec fn zip_file(&self, k: ZipKind) -> Seq<char> {
        self.temp_files_path@ + match k {
            ZipKind::Stage => "\\stage.zip"@,
            ZipKind::Drivers => "\\drivers.zip"@,
        }
    }

    /// The staging folder, placeholders replaced.
    pub open spec fn folder_source(&self, c: StagingConfigView) -> Seq<char> {
        self.substituted(setting_text(c.stage_folder))
    }

    /// The unattend file's URL, placeholders replaced.
    pub open spec fn unattend_source(&self, u: UnattendConfigView) -> Seq<char> {
        self.substituted(setting_text(u.url))
    }

    /// `diskpart.exe /s script`.
    pub open spec fn wipe_command(&self) -> CommandView {
        command("diskpart.exe"@, seq!["/s"@, self.format_script@])
    }

    /// `dism.exe /Apply-Image /ImageFile:wim /Index:n /ApplyDir:W:\`.
    pub open spec fn apply_command(&self) -> CommandView {
        command(
            "dism.exe"@,
            seq![
                "/Apply-Image"@,
                "/ImageFile:"@ + self.wim_path@,
                "/Index:"@ + crate::text::decimal(self.image_index as nat),
                "/ApplyDir:W:\\"@,
            ],
        )
    }

    /// `W:\Windows\System32\bcdboot.exe W:\Windows /s S:`.
    pub open spec fn bootloader_command(&self) -> CommandView {
        command("W:\\Windows\\System32\\bcdboot.exe"@, seq!["W:\\Windows"@, "/s"@, "S:"@])
    }

    /// `xcopy.exe folder W:\ /E /H /Q /Y`.
    pub open spec fn copy_command(&self, c: StagingConfigView) -> CommandView {
        command(
            "xcopy.exe"@,
            seq![self.folder_source(c), install_drive(), "/E"@, "/H"@, "/Q"@, "/Y"@],
        )
    }

    /// `dism.exe /Image:W:\ /Apply-Unattend:W:\Windows\Panther\unattend.xml`.
    pub open spec fn unattend_command(&self) -> CommandView {
        command("dism.exe"@, seq!["/Image:W:\\"@, "/Apply-Unattend:"@ + unattend_file()])
    }

    /// The state in which a run begins: wiping the disk, or, outside
    /// Windows PE, reporting it wiped without touching it.
    pub open spec fn first_state(&self) -> InstallStateView {
        if self.in_pe {
            InstallStateView::Wiping
        } else {
            InstallStateView::Reporting(Report::Wipe, success_message(Report::Wipe))
        }
    }

    /// What a state asks for.
    pub open spec fn action_of(&self, st: InstallStateView) -> ActionView {
        match st {
            InstallStateView::Wiping => ActionView::Run(self.wipe_command()),
            InstallStateView::Reporting(_, m) => ActionView::Publish(m),
            InstallStateView::Downloading => ActionView::Download {
                url: self.url@,
                destination: self.wim_path@,
            },
            InstallStateView::Applying => ActionView::Run(self.apply_command()),
            InstallStateView::RemovingWim => ActionView::RemoveFile(self.wim_path@),
            InstallStateView::InstallingBootloader => ActionView::Run(self.bootloader_command()),
            InstallStateView::ReadingUnattendSettings => ActionView::ReadSettings,
            InstallStateView::Unattend(c, u) => match u {
                UnattendState::CheckingUrl => ActionView::CheckUrl(self.unattend_source(c)),
                UnattendState::EnsuringFolder => ActionView::EnsureDirectory(panther_folder()),
                UnattendState::Downloading => ActionView::Download {
                    url: self.unattend_source(c),
                    destination: unattend_file(),
                },
                UnattendState::Applying => ActionView::Run(self.unattend_command()),
                UnattendState::Removing => ActionView::RemoveFile(unattend_file()),
            },
            InstallStateView::ReadingStagingSettings => ActionView::ReadSettings,
            InstallStateView::Staging(c, s) => match s {
                StagingState::CheckingFolder => ActionView::CheckPath(self.folder_source(c)),
                StagingState::CopyingFolder => ActionView::Run(self.copy_command(c)),
                StagingState::Zip(k, z) => match z {
                    ZipStep::CheckingUrl => ActionView::CheckUrl(self.zip_url(c, k)),
                    ZipStep::EnsuringTemp(_) => ActionView::EnsureDirectory(self.temp_files_path@),
                    ZipStep::Downloading(_) => ActionView::Download {
                        url: self.zip_url(c, k),
                        destination: self.zip_file(k),
                    },
                    ZipStep::Extracting => ActionView::ExtractZip {
                        archive: self.zip_file(k),
                        destination: install_drive(),
                    },
                    ZipStep::Removing => ActionView::RemoveFile(self.zip_file(k)),
                },
            },
            InstallStateView::Finished => ActionView::Stop,
        }
    }

    /// The state after a report is published.
    pub open spec fn after_report(&self, r: Report) -> InstallStateView {
        match r {
            Report::Wipe => InstallStateView::Downloading,
            Report::Download => if self.in_pe {
                InstallStateView::Applying
            } else {
                InstallStateView::Reporting(Report::Apply, success_message(Report::Apply))
            },
            Report::Apply => InstallStateView::RemovingWim,
            Report::Bootloader => InstallStateView::ReadingUnattendSettings,
            Report::Staging => InstallStateView::Finished,
        }
    }

    /// The error of the unattend step when its URL does not answer.
    pub open spec fn unreachable_unattend_message(&self, c: UnattendConfigView) -> Seq<char> {
        "Error with download of unattend from "@ + self.unattend_source(c)
            + " - XML may not exist or may be down."@
    }

    /// The error of the unattend step when its URL cannot be probed.
    pub open spec fn failed_unattend_probe_message(&self, c: UnattendConfigView) -> Seq<char> {
        "Error with download from "@ + self.unattend_source(c) + "."@
    }

    /// How the unattend step ends, when the outcome `ev` of its current
    /// action ends it: an error, or `Ok(true)` once the file was applied and
    /// removed. (When no unattend file is set the step does not start, which
    /// counts as `Ok(false)`.) The outcome is not reported: whatever it is,
    /// staging follows.
    pub open spec fn unattend_result(&self, c: UnattendConfigView, u: UnattendState, ev: EventView) -> Option<Result<bool, Seq<char>>> {
        match (u, ev) {
            (UnattendState::CheckingUrl, EventView::UrlChecked(r)) => match r {
                Ok(true) => None,
                Ok(false) => if c.continue_on_error {
                    None
                } else {
                    Some(Err(self.unreachable_unattend_message(c)))
                },
                Err(_) => Some(Err(self.failed_unattend_probe_message(c))),
            },
            (UnattendState::Applying, EventView::Ran(Err(code))) => Some(
                Err(unattend_apply_failure_message(code)),
            ),
            (UnattendState::Removing, EventView::Completed) => Some(Ok(true)),
            _ => None,
        }
    }

    /// The next state of the unattend step: reading the settings for staging
    /// once the step ends, else its next action.
    pub open spec fn unattend_next(&self, c: UnattendConfigView, u: UnattendState, ev: EventView) -> Option<InstallStateView> {
        if self.unattend_result(c, u, ev) is Some {
            Some(InstallStateView::ReadingStagingSettings)
        } else {
            match (u, ev) {
                (UnattendState::CheckingUrl, EventView::UrlChecked(_)) => Some(
                    InstallStateView::Unattend(c, UnattendState::EnsuringFolder),
                ),
                (UnattendState::EnsuringFolder, EventView::Completed) => Some(
                    InstallStateView::Unattend(c, UnattendState::Downloading),
                ),
                (UnattendState::Downloading, EventView::Downloaded(_)) => Some(
                    InstallStateView::Unattend(c, UnattendState::Applying),
                ),
                (UnattendState::Applying, EventView::Ran(_)) => Some(
                    InstallStateView::Unattend(c, UnattendState::Removing),
                ),
                _ => None,
            }
        }
    }

    /// The error that ends staging when an archive's URL does not answer.
    pub open spec fn unreachable_zip_message(&self, c: StagingConfigView, k: ZipKind) -> Seq<char> {
        "Error with download from "@ + self.zip_url(c, k) + " - Zip may not exist or server may be down."@
    }

    /// The error that ends staging when an archive's URL cannot be probed.
    pub open spec fn failed_probe_message(&self, c: StagingConfigView, k: ZipKind) -> Seq<char> {
        "Error with download from "@ + self.zip_url(c, k) + "."@
    }

    /// The next state of staging.
    pub open spec fn staging_next(&self, c: StagingConfigView, s: StagingState, ev: EventView) -> Option<InstallStateView> {
        match (s, ev) {
            (StagingState::CheckingFolder, EventView::PathChecked(found)) => Some(
                if found {
                    InstallStateView::Staging(c, StagingState::CopyingFolder)
                } else {
                    after_staging(Err(missing_folder_message(c)))
                },
            ),
            (StagingState::CopyingFolder, EventView::Ran(r)) => Some(
                match r {
                    Ok(_) => zip_entry(c, ZipKind::Stage),
                    Err(code) => after_staging(Err(copy_failure_message(c, code))),
                },
            ),
            (StagingState::Zip(k, ZipStep::CheckingUrl), EventView::UrlChecked(r)) => Some(
                match r {
                    Ok(true) => InstallStateView::Staging(c, StagingState::Zip(k, ZipStep::EnsuringTemp(true))),
                    Ok(false) => if c.continue_on_error {
                        InstallStateView::Staging(c, StagingState::Zip(k, ZipStep::EnsuringTemp(false)))
                    } else {
                        after_staging(Err(self.unreachable_zip_message(c, k)))
                    },
                    Err(_) => after_staging(Err(self.failed_probe_message(c, k))),
                },
            ),
            (StagingState::Zip(k, ZipStep::EnsuringTemp(answered)), EventView::Completed) => Some(
                InstallStateView::Staging(c, StagingState::Zip(k, ZipStep::Downloading(answered))),
            ),
            (StagingState::Zip(k, ZipStep::Downloading(answered)), EventView::Downloaded(r)) => Some(
                if !answered && r is Err {
                    after_zip(c, k)
                } else {
                    InstallStateView::Staging(c, StagingState::Zip(k, ZipStep::Extracting))
                },
            ),
            (StagingState::Zip(k, ZipStep::Extracting), EventView::Extracted(r)) => Some(
                match r {
                    Ok(_) => InstallStateView::Staging(c, StagingState::Zip(k, ZipStep::Removing)),
                    Err(e) => after_staging(Err(e)),
                },
            ),
            (StagingState::Zip(k, ZipStep::Removing), EventView::Completed) => Some(after_zip(c, k)),
            _ => None,
        }
    }

    /// The next state, given the outcome of the current state's action. An
    /// event that does not answer that action leaves the state as it is.
    pub open spec fn next_state(&self, st: InstallStateView, ev: EventView) -> InstallStateView {
        let moved: Option<InstallStateView> = match (st, ev) {
            (InstallStateView::Wiping, EventView::Ran(r)) => Some(
                InstallStateView::Reporting(
                    Report::Wipe,
                    command_status(Report::Wipe, "Error wiping disk "@, r),
                ),
            ),
            (InstallStateView::Reporting(r, _), EventView::Completed) => Some(self.after_report(r)),
            (InstallStateView::Downloading, EventView::Downloaded(r)) => Some(
                InstallStateView::Reporting(Report::Download, message_status(Report::Download, r)),
            ),
            (InstallStateView::Applying, EventView::Ran(r)) => Some(
                InstallStateView::Reporting(
                    Report::Apply,
                    command_status(Report::Apply, "Error extracting WIM "@, r),
                ),
            ),
            (InstallStateView::RemovingWim, EventView::Completed) => Some(
                if self.in_pe {
                    InstallStateView::InstallingBootloader
                } else {
                    InstallStateView::Reporting(Report::Bootloader, success_message(Report::Bootloader))
                },
            ),
            (InstallStateView::InstallingBootloader, EventView::Ran(r)) => Some(
                InstallStateView::Reporting(
                    Report::Bootloader,
                    command_status(Report::Bootloader, "Error installing bootloader "@, r),
                ),
            ),
            (InstallStateView::ReadingUnattendSettings, EventView::SettingsRead(m)) => Some(
                unattend_entry(unattend_config_of(m)),
            ),
            (InstallStateView::Unattend(c, u), e) => self.unattend_next(c, u, e),
            (InstallStateView::ReadingStagingSettings, EventView::SettingsRead(m)) => Some(
                staging_entry(staging_config_of(m)),
            ),
            (InstallStateView::Staging(c, s), e) => self.staging_next(c, s, e),
            _ => None,
        };
        match moved {
            Some(n) => n,
            None => st,
        }
    }
}

pub open spec fn zip_setting(c: StagingConfigView, k: ZipKind) -> Option<Seq<char>> {
    match k {
        ZipKind::Stage => c.stage_zip,
        ZipKind::Drivers => c.drivers_zip,
    }
}

/// Handling of an archive, or of what follows when its setting is empty.
pub open spec fn zip_entry(c: StagingConfigView, k: ZipKind) -> InstallStateView {
    if is_set(zip_setting(c, k)) {
        InstallStateView::Staging(c, StagingState::Zip(k, ZipStep::CheckingUrl))
    } else {
        match k {
            ZipKind::Stage => if is_set(c.drivers_zip) {
                InstallStateView::Staging(c, StagingState::Zip(ZipKind::Drivers, ZipStep::CheckingUrl))
            } else {
                after_staging(Ok(()))
            },
            ZipKind::Drivers => after_staging(Ok(())),
        }
    }
}

/// What follows the handling of an archive: the next archive, or the end of
/// staging.
pub open spec fn after_zip(c: StagingConfigView, k: ZipKind) -> InstallStateView {
    match k {
        ZipKind::Stage => zip_entry(c, ZipKind::Drivers),
        ZipKind::Drivers => after_staging(Ok(())),
    }
}

/// The start of staging: the folder first, then the archives.
pub open spec fn staging_entry(c: StagingConfigView) -> InstallStateView {
    if is_set(c.stage_folder) {
        InstallStateView::Staging(c, StagingState::CheckingFolder)
    } else {
        zip_entry(c, ZipKind::Stage)
    }
}

/// The start of the unattend step, or the read of the settings for staging
/// when no unattend file is set.
pub open spec fn unattend_entry(c: UnattendConfigView) -> InstallStateView {
    if is_set(c.url) {
        InstallStateView::Unattend(c, UnattendState::CheckingUrl)
    } else {
        InstallStateView::ReadingStagingSettings
    }
}

/// The error of the unattend step when dism cannot be started.
pub open spec fn unattend_apply_failure_message(code: i32) -> Seq<char> {
    "Error with local copy "@ + signed_decimal(code as int) + " . Tried from "@ + unattend_file()
}

/// The error that ends staging when a folder is missing.
pub open spec fn missing_folder_message(c: StagingConfigView) -> Seq<char> {
    "Path for staging files '"@ + setting_text(c.stage_folder) + "' does not exist"@
}

/// The error that ends staging when the copy cannot be started.
pub open spec fn copy_failure_message(c: StagingConfigView, code: i32) -> Seq<char> {
    "Error with local copy "@ + signed_decimal(code as int) + " . Tried from "@ + setting_text(
        c.stage_folder,
    )
}

/// How far a run is from its end: every answered action brings it closer.
pub open spec fn rank(st: InstallStateView) -> nat {
    match st {
        InstallStateView::Finished => 0,
        InstallStateView::Reporting(r, _) => match r {
            Report::Staging => 1,
            Report::Bootloader => 21,
            Report::Apply => 24,
            Report::Download => 26,
            Report::Wipe => 28,
        },
        InstallStateView::Staging(_, s) => match s {
            StagingState::Zip(k, z) => (match k {
                ZipKind::Drivers => 2nat,
                ZipKind::Stage => 7nat,
            }) + match z {
                ZipStep::Removing => 0nat,
                ZipStep::Extracting => 1nat,
                ZipStep::Downloading(_) => 2nat,
                ZipStep::EnsuringTemp(_) => 3nat,
                ZipStep::CheckingUrl => 4nat,
            },
            StagingState::CopyingFolder => 12,
            StagingState::CheckingFolder => 13,
        },
        InstallStateView::ReadingStagingSettings => 14,
        InstallStateView::Unattend(_, u) => match u {
            UnattendState::Removing => 15,
            UnattendState::Applying => 16,
            UnattendState::Downloading => 17,
            UnattendState::EnsuringFolder => 18,
            UnattendState::CheckingUrl => 19,
        },
        InstallStateView::ReadingUnattendSettings => 20,
        InstallStateView::InstallingBootloader => 22,
        InstallStateView::RemovingWim => 23,
        InstallStateView::Applying => 25,
        InstallStateView::Downloading => 27,
        InstallStateView::Wiping => 29,
    }
}

/// A state that works on the disk: wiping it, applying the image or
/// installing the bootloader.
pub open spec fn touches_disk(st: InstallStateView) -> bool {
    st is Wiping || st is Applying || st is InstallingBootloader
}

/// Every run comes to an end: an event that answers the pending action
/// moves the run strictly closer to its end, an event that does not answer
/// it leaves the run where it is, and a finished run stays finished and asks
/// for nothing.
pub proof fn law_run_progresses(job: InstallJob, st: InstallStateView, ev: EventView)
    ensures
        !(st is Finished) && answers(job.action_of(st), ev) ==> rank(job.next_state(st, ev)) < rank(st),
        !answers(job.action_of(st), ev) ==> job.next_state(st, ev) == st,
        st is Finished ==> job.next_state(st, ev) == st && job.action_of(st) == ActionView::Stop,
{
}

/// Outside Windows PE the disk is never wiped, imaged or made bootable: no
/// state of such a run touches the disk, from the first one on.
pub proof fn law_outside_pe_disk_untouched(job: InstallJob, st: InstallStateView, ev: EventView)
    requires
        !job.in_pe,
    ensures
        !touches_disk(job.first_state()),
        !touches_disk(st) ==> !touches_disk(job.next_state(st, ev)),
{
}

/// The unattend step and staging each use the settings as they read when
/// the step starts: the run reads `Settings.ini` anew after the bootloader
/// is reported and again after the unattend step, and each step takes its
/// entries from what was read.
pub proof fn law_steps_read_current_settings(
    job: InstallJob,
    entries: Map<Seq<char>, Map<Seq<char>, Option<Seq<char>>>>,
    c: UnattendConfigView,
    u: UnattendState,
    ev: EventView,
)
    ensures
        job.next_state(InstallStateView::Reporting(Report::Bootloader, success_message(Report::Bootloader)), EventView::Completed)
            == InstallStateView::ReadingUnattendSettings,
        job.action_of(InstallStateView::ReadingUnattendSettings) == ActionView::ReadSettings,
        job.next_state(InstallStateView::ReadingUnattendSettings, EventView::SettingsRead(entries))
            == unattend_entry(unattend_config_of(entries)),
        job.unattend_result(c, u, ev) is Some ==> job.next_state(InstallStateView::Unattend(c, u), ev)
            == InstallStateView::ReadingStagingSettings,
        job.next_state(InstallStateView::ReadingStagingSettings, EventView::SettingsRead(entries))
            == staging_entry(staging_config_of(entries)),
{
}

/// `stage_download_continue_on_error`: when an archive's URL does not
/// answer, staging stops with an error naming the URL, unless the setting
/// is on, in which case the archive is still fetched.
pub proof fn law_unreachable_archive(job: InstallJob, c: StagingConfigView, k: ZipKind)
    ensures
        job.next_state(
            InstallStateView::Staging(c, StagingState::Zip(k, ZipStep::CheckingUrl)),
            EventView::UrlChecked(Ok(false)),
        ) == if c.continue_on_error {
            InstallStateView::Staging(c, StagingState::Zip(k, ZipStep::EnsuringTemp(false)))
        } else {
            InstallStateView::Reporting(Report::Staging, job.unreachable_zip_message(c, k))
        },
        job.next_state(
            InstallStateView::Staging(c, StagingState::Zip(k, ZipStep::EnsuringTemp(false))),
            EventView::Completed,
        ) == InstallStateView::Staging(c, StagingState::Zip(k, ZipStep::Downloading(false))),
{
}

/// With `stage_download_continue_on_error` on, an archive whose URL did not
/// answer and whose download then fails is skipped: nothing is extracted or
/// removed, and staging goes on with the next archive, or ends as `Staged`.
/// A download that succeeds all the same is extracted as usual.
pub proof fn law_failed_download_of_unanswered_archive_is_skipped(
    job: InstallJob,
    c: StagingConfigView,
    k: ZipKind,
    e: Seq<char>,
)
    ensures
        job.next_state(
            InstallStateView::Staging(c, StagingState::Zip(k, ZipStep::Downloading(false))),
            EventView::Downloaded(Err(e)),
        ) == after_zip(c, k),
        !(after_zip(c, k) matches InstallStateView::Staging(_, StagingState::Zip(k2, _)) && k2 == k),
        after_zip(c, k) matches InstallStateView::Reporting(r, m) ==> r == Report::Staging && m
            == success_message(Report::Staging),
        job.next_state(
            InstallStateView::Staging(c, StagingState::Zip(k, ZipStep::Downloading(false))),
            EventView::Downloaded(Ok(())),
        ) == InstallStateView::Staging(c, StagingState::Zip(k, ZipStep::Extracting)),
{
}

/// A setting that is absent or written with an empty value.
pub open spec fn unset_or_empty(o: Option<Seq<char>>) -> bool {
    o is None || o == Some(Seq::<char>::empty())
}

/// The staging folder that is copied is the one whose existence was checked:
/// the folder setting with the product placeholders substituted. Its copy
/// goes to `W:\` with `/E /H /Q /Y`.
pub proof fn law_copied_folder_is_checked_folder(job: InstallJob, c: StagingConfigView)
    ensures
        job.action_of(InstallStateView::Staging(c, StagingState::CheckingFolder)) == ActionView::CheckPath(
            substitute_vars(setting_text(c.stage_folder), &job.product),
        ),
        job.action_of(InstallStateView::Staging(c, StagingState::CopyingFolder)) matches ActionView::Run(cmd)
            && cmd.program == "xcopy.exe"@ && cmd.args.len() == 6
            && cmd.args[0] == substitute_vars(setting_text(c.stage_folder), &job.product)
            && cmd.args[1] == "W:\\"@ && cmd.args[2] == "/E"@ && cmd.args[3] == "/H"@
            && cmd.args[4] == "/Q"@ && cmd.args[5] == "/Y"@,
{
}

/// An empty `stage_folder`, `stage_download_zip`, `drivers_download_zip` or
/// `unattend_download_path` counts as unset: an unset folder goes straight
/// to the archives, an unset staging archive straight to the drivers
/// archive, an unset drivers archive straight to `Staged`, an unset unattend
/// file straight to staging, with no outside work asked for them. A set one
/// is always taken up.
pub proof fn law_empty_settings_count_as_unset(c: StagingConfigView, u: UnattendConfigView)
    ensures
        unset_or_empty(c.stage_folder) ==> staging_entry(c) == zip_entry(c, ZipKind::Stage),
        unset_or_empty(c.stage_folder) ==> !(staging_entry(c) matches InstallStateView::Staging(
            _,
            StagingState::CheckingFolder,
        )),
        unset_or_empty(c.stage_zip) ==> zip_entry(c, ZipKind::Stage) == zip_entry(c, ZipKind::Drivers),
        unset_or_empty(c.stage_zip) && unset_or_empty(c.drivers_zip) ==> zip_entry(c, ZipKind::Stage)
            == InstallStateView::Reporting(Report::Staging, "Staged"@),
        unset_or_empty(c.stage_folder) && unset_or_empty(c.stage_zip) && unset_or_empty(c.drivers_zip)
            ==> staging_entry(c) == InstallStateView::Reporting(Report::Staging, "Staged"@),
        unset_or_empty(c.drivers_zip) ==> zip_entry(c, ZipKind::Drivers) == InstallStateView::Reporting(
            Report::Staging,
            "Staged"@,
        ),
        unset_or_empty(u.url) ==> unattend_entry(u) == InstallStateView::ReadingStagingSettings,
        !unset_or_empty(c.stage_folder) ==> staging_entry(c) == InstallStateView::Staging(
            c,
            StagingState::CheckingFolder,
        ),
        !unset_or_empty(c.stage_zip) ==> zip_entry(c, ZipKind::Stage) == InstallStateView::Staging(
            c,
            StagingState::Zip(ZipKind::Stage, ZipStep::CheckingUrl),
        ),
        !unset_or_empty(c.drivers_zip) ==> zip_entry(c, ZipKind::Drivers) == InstallStateView::Staging(
            c,
            StagingState::Zip(ZipKind::Drivers, ZipStep::CheckingUrl),
        ),
        !unset_or_empty(u.url) ==> unattend_entry(u) == InstallStateView::Unattend(u, UnattendState::CheckingUrl),
{
    assert(unset_or_empty(c.stage_folder) ==> !is_set(c.stage_folder));
    assert(!unset_or_empty(c.stage_folder) ==> is_set(c.stage_folder)) by {
        if !unset_or_empty(c.stage_folder) {
            assert(c.stage_folder->0 !== Seq::<char>::empty());
            assert(c.stage_folder->0.len() > 0) by {
                if c.stage_folder->0.len() == 0 {
                    assert(c.stage_folder->0 =~= Seq::<char>::empty());
                }
            }
        }
    }
    assert(!unset_or_empty(c.stage_zip) ==> is_set(c.stage_zip)) by {
        if !unset_or_empty(c.stage_zip) {
            if c.stage_zip->0.len() == 0 {
                assert(c.stage_zip->0 =~= Seq::<char>::empty());
            }
        }
    }
    assert(!unset_or_empty(c.drivers_zip) ==> is_set(c.drivers_zip)) by {
        if !unset_or_empty(c.drivers_zip) {
            if c.drivers_zip->0.len() == 0 {
                assert(c.drivers_zip->0 =~= Seq::<char>::empty());
            }
        }
    }
    assert(!unset_or_empty(u.url) ==> is_set(u.url)) by {
        if !unset_or_empty(u.url) {
            if u.url->0.len() == 0 {
                assert(u.url->0 =~= Seq::<char>::empty());
            }
        }
    }
}

/// Once the unattend file's URL answers its probe, the file is applied,
/// whatever the continue setting: the Panther folder is made, the file is
/// downloaded there, dism applies it and it is removed, and then staging
/// follows. A URL that does not answer is still fetched when the continue
/// setting is on, and skipped otherwise.
pub proof fn law_answered_unattend_is_applied(job: InstallJob, u: UnattendConfigView, d: Result<(), Seq<char>>)
    ensures
        job.next_state(InstallStateView::Unattend(u, UnattendState::CheckingUrl), EventView::UrlChecked(Ok(true)))
            == InstallStateView::Unattend(u, UnattendState::EnsuringFolder),
        job.next_state(InstallStateView::Unattend(u, UnattendState::CheckingUrl), EventView::UrlChecked(Ok(false)))
            == if u.continue_on_error {
            InstallStateView::Unattend(u, UnattendState::EnsuringFolder)
        } else {
            InstallStateView::ReadingStagingSettings
        },
        job.action_of(InstallStateView::Unattend(u, UnattendState::EnsuringFolder))
            == ActionView::EnsureDirectory("W:\\Windows\\Panther\\"@),
        job.next_state(InstallStateView::Unattend(u, UnattendState::EnsuringFolder), EventView::Completed)
            == InstallStateView::Unattend(u, UnattendState::Downloading),
        job.action_of(InstallStateView::Unattend(u, UnattendState::Downloading)) == (ActionView::Download {
            url: substitute_vars(setting_text(u.url), &job.product),
            destination: "W:\\Windows\\Panther\\unattend.xml"@,
        }),
        job.next_state(InstallStateView::Unattend(u, UnattendState::Downloading), EventView::Downloaded(d))
            == InstallStateView::Unattend(u, UnattendState::Applying),
        job.action_of(InstallStateView::Unattend(u, UnattendState::Applying)) == ActionView::Run(
            command("dism.exe"@, seq!["/Image:W:\\"@, "/Apply-Unattend:W:\\Windows\\Panther\\unattend.xml"@]),
        ),
        job.next_state(InstallStateView::Unattend(u, UnattendState::Applying), EventView::Ran(Ok(())))
            == InstallStateView::Unattend(u, UnattendState::Removing),
        job.next_state(InstallStateView::Unattend(u, UnattendState::Removing), EventView::Completed)
            == InstallStateView::ReadingStagingSettings,
        job.unattend_result(u, UnattendState::Removing, EventView::Completed) == Some(Ok::<bool, Seq<char>>(true)),
{
    reveal_strlit("/Apply-Unattend:");
    reveal_strlit("W:\\Windows\\Panther\\unattend.xml");
    reveal_strlit("/Apply-Unattend:W:\\Windows\\Panther\\unattend.xml");
    assert("/Apply-Unattend:"@ + "W:\\Windows\\Panther\\unattend.xml"@
        =~= "/Apply-Unattend:W:\\Windows\\Panther\\unattend.xml"@);
}

/// An owned copy of a text.
pub(crate) fn owned(s: &str) -> (r: String)
    ensures
        r@ == s@,
{
    let mut r = String::new();
    r.append(s);
    r
}

/// Two texts joined.
pub(crate) fn joined(a: &str, b: &str) -> (r: String)
    ensures
        r@ == a@ + b@,
{
    let mut r = String::new();
    r.append(a);
    r.append(b);
    r
}

fn setting_given(o: &Option<String>) -> (r: bool)
    ensures
        r == is_set(optional_view(*o)),
{
    match o {
        Some(v) => !v.as_str().is_empty(),
        None => false,
    }
}

fn setting_str(o: &Option<String>) -> (r: &str)
    ensures
        r@ == setting_text(optional_view(*o)),
{
    match o {
        Some(v) => v.as_str(),
        None => {
            proof {
                reveal_strlit("");
            }
            ""
        },
    }
}

fn copy_setting(o: &Option<String>) -> (r: Option<String>)
    ensures
        optional_view(r) == optional_view(*o),
{
    match o {
        Some(v) => Some(v.clone()),
        None => None,
    }
}

fn command_status_text(r: Report, failure: &str, outcome: Result<(), i32>) -> (s: String)
    ensures
        s@ == command_status(r, failure@, outcome),
{
    match outcome {
        Ok(_) => success_text(r),
        Err(code) => {
            let mut s = owned(failure);
            push_signed_decimal(&mut s, code);
            s
        },
    }
}

fn success_text(r: Report) -> (s: String)
    ensures
        s@ == success_message(r),
{
    match r {
        Report::Wipe => owned("DiskWiped"),
        Report::Download => owned("Downloaded"),
        Report::Apply => owned("Extracted"),
        Report::Bootloader => owned("Bootloaded"),
        Report::Staging => owned("Staged"),
    }
}

fn message_status_text(r: Report, outcome: &Result<(), String>) -> (s: String)
    ensures
        s@ == message_status(r, message_view(*outcome)),
{
    match outcome {
        Ok(_) => success_text(r),
        Err(e) => e.clone(),
    }
}

fn staging_finished(outcome: &Result<(), String>) -> (st: InstallState)
    ensures
        st@ == after_staging(message_view(*outcome)),
{
    InstallState::Reporting(Report::Staging, message_status_text(Report::Staging, outcome))
}

fn staging_failed(message: String) -> (st: InstallState)
    ensures
        st@ == after_staging(Err(message@)),
{
    InstallState::Reporting(Report::Staging, message)
}

fn copy_state(st: &InstallState) -> (r: InstallState)
    ensures
        r@ == st@,
{
    match st {
        InstallState::Wiping => InstallState::Wiping,
        InstallState::Reporting(r, m) => InstallState::Reporting(*r, m.clone()),
        InstallState::Downloading => InstallState::Downloading,
        InstallState::Applying => InstallState::Applying,
        InstallState::RemovingWim => InstallState::RemovingWim,
        InstallState::InstallingBootloader => InstallState::InstallingBootloader,
        InstallState::ReadingUnattendSettings => InstallState::ReadingUnattendSettings,
        InstallState::Unattend(c, u) => InstallState::Unattend(c.copy(), *u),
        InstallState::ReadingStagingSettings => InstallState::ReadingStagingSettings,
        InstallState::Staging(c, s) => InstallState::Staging(c.copy(), *s),
        InstallState::Finished => InstallState::Finished,
    }
}

fn make_command(program: &str, args: Vec<String>) -> (c: CommandSpec)
    ensures
        c@.program == program@,
        c.args == args,
{
    CommandSpec { program: owned(program), args }
}

impl UnattendConfig {
    /// What the unattend step takes from the settings.
    pub fn read(settings: &Settings) -> (c: UnattendConfig)
        ensures
            c@ == unattend_config_of(settings.entries()),
    {
        UnattendConfig {
            url: settings.get("deploy", "unattend_download_path"),
            continue_on_error: settings.flag("deploy", "stage_download_continue_on_error"),
        }
    }

    fn copy(&self) -> (c: UnattendConfig)
        ensures
            c@ == self@,
    {
        UnattendConfig { url: copy_setting(&self.url), continue_on_error: self.continue_on_error }
    }
}

impl StagingConfig {
    /// What staging takes from the settings.
    pub fn read(settings: &Settings) -> (c: StagingConfig)
        ensures
            c@ == staging_config_of(settings.entries()),
    {
        StagingConfig {
            stage_folder: settings.get("deploy", "stage_folder"),
            stage_zip: settings.get("deploy", "stage_download_zip"),
            drivers_zip: settings.get("deploy", "drivers_download_zip"),
            continue_on_error: settings.flag("deploy", "stage_download_continue_on_error"),
        }
    }

    fn copy(&self) -> (c: StagingConfig)
        ensures
            c@ == self@,
    {
        StagingConfig {
            stage_folder: copy_setting(&self.stage_folder),
            stage_zip: copy_setting(&self.stage_zip),
            drivers_zip: copy_setting(&self.drivers_zip),
            continue_on_error: self.continue_on_error,
        }
    }

    fn zip_setting_ref(&self, k: ZipKind) -> (r: &Option<String>)
        ensures
            optional_view(*r) == zip_setting(self@, k),
    {
        match k {
            ZipKind::Stage => &self.stage_zip,
            ZipKind::Drivers => &self.drivers_zip,
        }
    }

    fn zip_entry_state(self, k: ZipKind) -> (st: InstallState)
        ensures
            st@ == zip_entry(self@, k),
    {
        if setting_given(self.zip_setting_ref(k)) {
            InstallState::Staging(self, StagingState::Zip(k, ZipStep::CheckingUrl))
        } else {
            match k {
                ZipKind::Stage => if setting_given(&self.drivers_zip) {
                    InstallState::Staging(self, StagingState::Zip(ZipKind::Drivers, ZipStep::CheckingUrl))
                } else {
                    staging_finished(&Ok(()))
                },
                ZipKind::Drivers => staging_finished(&Ok(())),
            }
        }
    }

    fn after_zip_state(self, k: ZipKind) -> (st: InstallState)
        ensures
            st@ == after_zip(self@, k),
    {
        match k {
            ZipKind::Stage => self.zip_entry_state(ZipKind::Drivers),
            ZipKind::Drivers => staging_finished(&Ok(())),
        }
    }
}

/// The start of staging with the settings as they now read: checking the
/// staging folder, or, when none is set, fetching the archives, or
/// reporting staging done.
pub fn install_staging_files(settings: &Settings) -> (st: InstallState)
    ensures
        st@ == staging_entry(staging_config_of(settings.entries())),
{
    let c = StagingConfig::read(settings);
    if setting_given(&c.stage_folder) {
        InstallState::Staging(c, StagingState::CheckingFolder)
    } else {
        c.zip_entry_state(ZipKind::Stage)
    }
}

/// The start of the unattend step with the settings as they now read, or
/// the read of the settings for staging when no unattend file is set.
pub fn download_and_apply_unattend(settings: &Settings) -> (st: InstallState)
    ensures
        st@ == unattend_entry(unattend_config_of(settings.entries())),
{
    let c = UnattendConfig::read(settings);
    if setting_given(&c.url) {
        InstallState::Unattend(c, UnattendState::CheckingUrl)
    } else {
        InstallState::ReadingStagingSettings
    }
}

impl InstallJob {
    fn substitute(&self, s: &str) -> (r: String)
        ensures
            r@ == self.substituted(s@),
    {
        ImagingApp::sub_system_info_vars(s, &self.product)
    }

    fn zip_url_text(&self, c: &StagingConfig, k: ZipKind) -> (r: String)
        ensures
            r@ == self.zip_url(c@, k),
    {
        self.substitute(setting_str(c.zip_setting_ref(k)))
    }

    fn zip_file_text(&self, k: ZipKind) -> (r: String)
        ensures
            r@ == self.zip_file(k),
    {
        match k {
            ZipKind::Stage => joined(self.temp_files_path.as_str(), "\\stage.zip"),
            ZipKind::Drivers => joined(self.temp_files_path.as_str(), "\\drivers.zip"),
        }
    }

    /// The state in which a run begins.
    pub fn first(&self) -> (st: InstallState)
        ensures
            st@ == self.first_state(),
    {
        if self.in_pe {
            InstallState::Wiping
        } else {
            InstallState::Reporting(Report::Wipe, success_text(Report::Wipe))
        }
    }

    /// The command that prepares the disk.
    pub fn wipe_disk(&self) -> (c: CommandSpec)
        ensures
            c@ == self.wipe_command(),
    {
        let mut args: Vec<String> = Vec::new();
        args.push(owned("/s"));
        args.push(self.format_script.clone());
        let c = make_command("diskpart.exe", args);
        assert(c@.args =~= self.wipe_command().args);
        c
    }

    /// The command that applies the image.
    pub fn apply_wim(&self) -> (c: CommandSpec)
        ensures
            c@ == self.apply_command(),
    {
        let mut args: Vec<String> = Vec::new();
        args.push(owned("/Apply-Image"));
        args.push(joined("/ImageFile:", self.wim_path.as_str()));
        let mut index = owned("/Index:");
        crate::text::push_decimal(&mut index, self.image_index as u64);
        args.push(index);
        args.push(owned("/ApplyDir:W:\\"));
        let c = make_command("dism.exe", args);
        assert(c@.args =~= self.apply_command().args);
        c
    }

    /// The command that makes the installed system bootable.
    pub fn install_bootloader(&self) -> (c: CommandSpec)
        ensures
            c@ == self.bootloader_command(),
    {
        let mut args: Vec<String> = Vec::new();
        args.push(owned("W:\\Windows"));
        args.push(owned("/s"));
        args.push(owned("S:"));
        let c = make_command("W:\\Windows\\System32\\bcdboot.exe", args);
        assert(c@.args =~= self.bootloader_command().args);
        c
    }

    fn copy_folder(&self, c: &StagingConfig) -> (cmd: CommandSpec)
        ensures
            cmd@ == self.copy_command(c@),
    {
        let mut args: Vec<String> = Vec::new();
        args.push(self.substitute(setting_str(&c.stage_folder)));
        args.push(owned("W:\\"));
        args.push(owned("/E"));
        args.push(owned("/H"));
        args.push(owned("/Q"));
        args.push(owned("/Y"));
        let cmd = make_command("xcopy.exe", args);
        assert(cmd@.args =~= self.copy_command(c@).args);
        cmd
    }

    fn apply_unattend(&self) -> (c: CommandSpec)
        ensures
            c@ == self.unattend_command(),
    {
        let mut args: Vec<String> = Vec::new();
        args.push(owned("/Image:W:\\"));
        args.push(joined("/Apply-Unattend:", "W:\\Windows\\Panther\\unattend.xml"));
        let c = make_command("dism.exe", args);
        assert(c@.args =~= self.unattend_command().args);
        c
    }

    /// The outside work that a state asks for.
    pub fn action(&self, st: &InstallState) -> (a: Action)
        ensures
            a@ == self.action_of(st@),
    {
        match st {
            InstallState::Wiping => Action::Run(self.wipe_disk()),
            InstallState::Reporting(_, m) => Action::Publish(m.clone()),
            InstallState::Downloading => Action::Download {
                url: self.url.clone(),
                destination: self.wim_path.clone(),
            },
            InstallState::Applying => Action::Run(self.apply_wim()),
            InstallState::RemovingWim => Action::RemoveFile(self.wim_path.clone()),
            InstallState::InstallingBootloader => Action::Run(self.install_bootloader()),
            InstallState::ReadingUnattendSettings => Action::ReadSettings,
            InstallState::Unattend(c, u) => match u {
                UnattendState::CheckingUrl => Action::CheckUrl(self.substitute(setting_str(&c.url))),
                UnattendState::EnsuringFolder => Action::EnsureDirectory(owned("W:\\Windows\\Panther\\")),
                UnattendState::Downloading => Action::Download {
                    url: self.substitute(setting_str(&c.url)),
                    destination: owned("W:\\Windows\\Panther\\unattend.xml"),
                },
                UnattendState::Applying => Action::Run(self.apply_unattend()),
                UnattendState::Removing => Action::RemoveFile(owned("W:\\Windows\\Panther\\unattend.xml")),
            },
            InstallState::ReadingStagingSettings => Action::ReadSettings,
            InstallState::Staging(c, s) => match s {
                StagingState::CheckingFolder => Action::CheckPath(
                    self.substitute(setting_str(&c.stage_folder)),
                ),
                StagingState::CopyingFolder => Action::Run(self.copy_folder(c)),
                StagingState::Zip(k, z) => match z {
                    ZipStep::CheckingUrl => Action::CheckUrl(self.zip_url_text(c, *k)),
                    ZipStep::EnsuringTemp(_) => Action::EnsureDirectory(self.temp_files_path.clone()),
                    ZipStep::Downloading(_) => Action::Download {
                        url: self.zip_url_text(c, *k),
                        destination: self.zip_file_text(*k),
                    },
                    ZipStep::Extracting => Action::ExtractZip {
                        archive: self.zip_file_text(*k),
                        destination: owned("W:\\"),
                    },
                    ZipStep::Removing => Action::RemoveFile(self.zip_file_text(*k)),
                },
            },
            InstallState::Finished => Action::Stop,
        }
    }

    fn after_report_state(&self, r: Report) -> (st: InstallState)
        ensures
            st@ == self.after_report(r),
    {
        match r {
            Report::Wipe => InstallState::Downloading,
            Report::Download => if self.in_pe {
                InstallState::Applying
            } else {
                InstallState::Reporting(Report::Apply, success_text(Report::Apply))
            },
            Report::Apply => InstallState::RemovingWim,
            Report::Bootloader => InstallState::ReadingUnattendSettings,
            Report::Staging => InstallState::Finished,
        }
    }

    /// How the unattend step, with settings `c`, ends when the outcome `ev`
    /// of its current action ends it; `None` while it goes on.
    pub fn unattend_outcome(&self, c: &UnattendConfig, u: UnattendState, ev: &Event) -> (res: Option<Result<bool, String>>)
        ensures
            match res {
                Some(Ok(b)) => self.unattend_result(c@, u, ev@) == Some(Ok::<bool, Seq<char>>(b)),
                Some(Err(m)) => self.unattend_result(c@, u, ev@) == Some(Err::<bool, Seq<char>>(m@)),
                None => self.unattend_result(c@, u, ev@) is None,
            },
    {
        match (u, ev) {
            (UnattendState::CheckingUrl, Event::UrlChecked(r)) => match r {
                Ok(true) => None,
                Ok(false) => if c.continue_on_error {
                    None
                } else {
                    let mut m = owned("Error with download of unattend from ");
                    m.append(self.substitute(setting_str(&c.url)).as_str());
                    m.append(" - XML may not exist or may be down.");
                    Some(Err(m))
                },
                Err(_) => {
                    let mut m = owned("Error with download from ");
                    m.append(self.substitute(setting_str(&c.url)).as_str());
                    m.append(".");
                    Some(Err(m))
                },
            },
            (UnattendState::Applying, Event::Ran(Err(code))) => {
                let mut m = owned("Error with local copy ");
                push_signed_decimal(&mut m, *code);
                m.append(" . Tried from ");
                m.append("W:\\Windows\\Panther\\unattend.xml");
                Some(Err(m))
            },
            (UnattendState::Removing, Event::Completed) => Some(Ok(true)),
            _ => None,
        }
    }

    fn unattend_step(&self, c: &UnattendConfig, u: UnattendState, ev: &Event) -> (r: Option<InstallState>)
        ensures
            match r {
                Some(st) => self.unattend_next(c@, u, ev@) == Some(st@),
                None => self.unattend_next(c@, u, ev@) is None,
            },
    {
        if self.unattend_outcome(c, u, ev).is_some() {
            return Some(InstallState::ReadingStagingSettings);
        }
        match (u, ev) {
            (UnattendState::CheckingUrl, Event::UrlChecked(_)) => Some(
                InstallState::Unattend(c.copy(), UnattendState::EnsuringFolder),
            ),
            (UnattendState::EnsuringFolder, Event::Completed) => Some(
                InstallState::Unattend(c.copy(), UnattendState::Downloading),
            ),
            (UnattendState::Downloading, Event::Downloaded(_)) => Some(
                InstallState::Unattend(c.copy(), UnattendState::Applying),
            ),
            (UnattendState::Applying, Event::Ran(_)) => Some(
                InstallState::Unattend(c.copy(), UnattendState::Removing),
            ),
            _ => None,
        }
    }

    fn staging_step(&self, c: &StagingConfig, s: StagingState, ev: &Event) -> (r: Option<InstallState>)
        ensures
            match r {
                Some(st) => self.staging_next(c@, s, ev@) == Some(st@),
                None => self.staging_next(c@, s, ev@) is None,
            },
    {
        match (s, ev) {
            (StagingState::CheckingFolder, Event::PathChecked(found)) => Some(
                if *found {
                    InstallState::Staging(c.copy(), StagingState::CopyingFolder)
                } else {
                    let mut m = owned("Path for staging files '");
                    m.append(setting_str(&c.stage_folder));
                    m.append("' does not exist");
                    staging_failed(m)
                },
            ),
            (StagingState::CopyingFolder, Event::Ran(r)) => Some(
                match r {
                    Ok(_) => c.copy().zip_entry_state(ZipKind::Stage),
                    Err(code) => {
                        let mut m = owned("Error with local copy ");
                        push_signed_decimal(&mut m, *code);
                        m.append(" . Tried from ");
                        m.append(setting_str(&c.stage_folder));
                        staging_failed(m)
                    },
                },
            ),
            (StagingState::Zip(k, ZipStep::CheckingUrl), Event::UrlChecked(r)) => Some(
                match r {
                    Ok(true) => InstallState::Staging(c.copy(), StagingState::Zip(k, ZipStep::EnsuringTemp(true))),
                    Ok(false) => if c.continue_on_error {
                        InstallState::Staging(c.copy(), StagingState::Zip(k, ZipStep::EnsuringTemp(false)))
                    } else {
                        let mut m = owned("Error with download from ");
                        m.append(self.zip_url_text(c, k).as_str());
                        m.append(" - Zip may not exist or server may be down.");
                        staging_failed(m)
                    },
                    Err(_) => {
                        let mut m = owned("Error with download from ");
                        m.append(self.zip_url_text(c, k).as_str());
                        m.append(".");
                        staging_failed(m)
                    },
                },
            ),
            (StagingState::Zip(k, ZipStep::EnsuringTemp(answered)), Event::Completed) => Some(
                InstallState::Staging(c.copy(), StagingState::Zip(k, ZipStep::Downloading(answered))),
            ),
            (StagingState::Zip(k, ZipStep::Downloading(answered)), Event::Downloaded(r)) => Some(
                if !answered && r.is_err() {
                    c.copy().after_zip_state(k)
                } else {
                    InstallState::Staging(c.copy(), StagingState::Zip(k, ZipStep::Extracting))
                },
            ),
            (StagingState::Zip(k, ZipStep::Extracting), Event::Extracted(r)) => Some(
                match r {
                    Ok(_) => InstallState::Staging(c.copy(), StagingState::Zip(k, ZipStep::Removing)),
                    Err(e) => staging_failed(e.clone()),
                },
            ),
            (StagingState::Zip(k, ZipStep::Removing), Event::Completed) => Some(c.copy().after_zip_state(k)),
            _ => None,
        }
    }

    /// The state that follows `st` when its action had outcome `ev`. An
    /// outcome that does not answer the state's action leaves it unchanged.
    pub fn next(&self, st: &InstallState, ev: &Event) -> (n: InstallState)
        ensures
            n@ == self.next_state(st@, ev@),
    {
        let moved: Option<InstallState> = match (st, ev) {
            (InstallState::Wiping, Event::Ran(r)) => Some(
                InstallState::Reporting(
                    Report::Wipe,
                    command_status_text(Report::Wipe, "Error wiping disk ", *r),
                ),
            ),
            (InstallState::Reporting(r, _), Event::Completed) => Some(self.after_report_state(*r)),
            (InstallState::Downloading, Event::Downloaded(r)) => Some(
                InstallState::Reporting(Report::Download, message_status_text(Report::Download, r)),
            ),
            (InstallState::Applying, Event::Ran(r)) => Some(
                InstallState::Reporting(
                    Report::Apply,
                    command_status_text(Report::Apply, "Error extracting WIM ", *r),
                ),
            ),
            (InstallState::RemovingWim, Event::Completed) => Some(
                if self.in_pe {
                    InstallState::InstallingBootloader
                } else {
                    InstallState::Reporting(Report::Bootloader, success_text(Report::Bootloader))
                },
            ),
            (InstallState::InstallingBootloader, Event::Ran(r)) => Some(
                InstallState::Reporting(
                    Report::Bootloader,
                    command_status_text(Report::Bootloader, "Error installing bootloader ", *r),
                ),
            ),
            (InstallState::ReadingUnattendSettings, Event::SettingsRead(settings)) => Some(
                download_and_apply_unattend(settings),
            ),
            (InstallState::Unattend(c, u), e) => self.unattend_step(c, *u, e),
            (InstallState::ReadingStagingSettings, Event::SettingsRead(settings)) => Some(
                install_staging_files(settings),
            ),
            (InstallState::Staging(c, s), e) => self.staging_step(c, *s, e),
            _ => None,
        };
        match moved {
            Some(n) => n,
            None => copy_state(st),
        }
    }
}

} // verus!
