//! The imaging tool's form and the decisions it takes around it.

use crate::procedure::{command_status, owned, success_message, InstallJob, Report};
use crate::settings::Settings;
use crate::system::{disk_eligible, wim_save_path, DiskInfo, ProductInfo};
use crate::text::{parse_u8, parse_u8_spec, same_text};
use vstd::prelude::*;

verus! {

/// The progress bar runs from 0 to this value.
pub const PROGRESS_END: u32 = 100;

/// How far the progress bar moves when an installation is started.
pub const PROGRESS_START: u32 = 15;

/// The imaging tool: the values of its form.
pub struct ImagingApp {
    /// Where the image is downloaded from.
    pub download_url: String,
    /// Where the downloaded image is kept; empty to pick a disk.
    pub wim_temp_path: String,
    /// Where temporary files are kept.
    pub file_temp_path: String,
    /// Which image of the file is applied, as typed.
    pub image_index: String,
    /// The address probed before an automatic install.
    pub network_check_url: String,
}

/// Which parts of the form are shown and which can be edited.
pub struct UiLayout {
    pub download_label_visible: bool,
    pub install_progress_visible: bool,
    pub install_status_visible: bool,
    pub start_button_visible: bool,
    pub download_url_enabled: bool,
    pub wim_temp_path_enabled: bool,
    pub file_temp_path_enabled: bool,
}

/// What the form does with a status handed over by the installation.
pub enum NoticeReaction {
    /// Move the progress bar by `delta`, show `status`; when `finished`, tell
    /// the user that imaging is complete and close.
    Advance { delta: u32, status: String, finished: bool },
    /// Show `message` as an error and give the form back to the user.
    Failure { message: String },
}

pub enum NoticeView {
    Advance { delta: u32, status: Seq<char>, finished: bool },
    Failure { message: Seq<char> },
}

impl View for NoticeReaction {
    type V = NoticeView;

    open spec fn view(&self) -> NoticeView {
        match self {
            NoticeReaction::Advance { delta, status, finished } => NoticeView::Advance {
                delta: *delta,
                status: status@,
                finished: *finished,
            },
            NoticeReaction::Failure { message } => NoticeView::Failure { message: message@ },
        }
    }
}

/// The reaction to a status: the five statuses of a successful installation
/// move the bar (5, 25, 25, 15, 15 for `DiskWiped`, `Downloaded`,
/// `Extracted`, `Bootloaded`, `Staged`); anything else is an error.
pub open spec fn notice_reaction(status: Seq<char>, autoinstall: bool) -> NoticeView {
    if status == "Downloaded"@ {
        NoticeView::Advance { delta: 25, status: "Unpacking WIM"@, finished: false }
    } else if status == "DiskWiped"@ {
        NoticeView::Advance { delta: 5, status: "Downloading"@, finished: false }
    } else if status == "Extracted"@ {
        NoticeView::Advance { delta: 25, status: "Installing bootloader"@, finished: false }
    } else if status == "Bootloaded"@ {
        NoticeView::Advance { delta: 15, status: "Checking for any staging files"@, finished: false }
    } else if status == "Staged"@ {
        NoticeView::Advance {
            delta: 15,
            status: "Files are staged, we are ready to reboot"@,
            finished: !autoinstall,
        }
    } else {
        NoticeView::Failure { message: "Error "@ + status }
    }
}

/// How far a reaction moves the progress bar.
pub open spec fn notice_delta(v: NoticeView) -> nat {
    match v {
        NoticeView::Advance { delta, .. } => delta as nat,
        NoticeView::Failure { .. } => 0,
    }
}

/// A successful installation fills the progress bar exactly: starting it
/// moves the bar by `PROGRESS_START`, and the statuses that a run reports
/// when every step succeeds move it the rest of the way to `PROGRESS_END`.
/// None of them is taken for an error, and only the last one ends the
/// session, unless the installation runs by itself.
pub proof fn law_successful_install_fills_progress(autoinstall: bool)
    ensures
        forall|r: Report| #[trigger] notice_reaction(success_message(r), autoinstall) is Advance,
        forall|r: Report|
            (#[trigger] notice_reaction(success_message(r), autoinstall)) matches NoticeView::Advance {
                finished,
                ..
            } ==> finished == (r == Report::Staging && !autoinstall),
        PROGRESS_START + notice_delta(notice_reaction(success_message(Report::Wipe), autoinstall))
            + notice_delta(notice_reaction(success_message(Report::Download), autoinstall))
            + notice_delta(notice_reaction(success_message(Report::Apply), autoinstall))
            + notice_delta(notice_reaction(success_message(Report::Bootloader), autoinstall))
            + notice_delta(notice_reaction(success_message(Report::Staging), autoinstall))
            == PROGRESS_END,
{
    reveal_strlit("DiskWiped");
    reveal_strlit("Downloaded");
    reveal_strlit("Extracted");
    reveal_strlit("Bootloaded");
    reveal_strlit("Staged");
    assert("DiskWiped"@ != "Extracted"@) by {
        assert("DiskWiped"@[0] != "Extracted"@[0]);
    }
    assert("Bootloaded"@ != "Downloaded"@) by {
        assert("Bootloaded"@[0] != "Downloaded"@[0]);
    }
    assert("DiskWiped"@ != "Downloaded"@) by {
        assert("DiskWiped"@.len() != "Downloaded"@.len());
    }
    assert("Extracted"@ != "Downloaded"@) by {
        assert("Extracted"@.len() != "Downloaded"@.len());
    }
    assert("Bootloaded"@ != "DiskWiped"@) by {
        assert("Bootloaded"@.len() != "DiskWiped"@.len());
    }
    assert("Bootloaded"@ != "Extracted"@) by {
        assert("Bootloaded"@.len() != "Extracted"@.len());
    }
    assert("Staged"@ != "Downloaded"@) by {
        assert("Staged"@.len() != "Downloaded"@.len());
    }
    assert("Staged"@ != "DiskWiped"@) by {
        assert("Staged"@.len() != "DiskWiped"@.len());
    }
    assert("Staged"@ != "Extracted"@) by {
        assert("Staged"@.len() != "Extracted"@.len());
    }
    assert("Staged"@ != "Bootloaded"@) by {
        assert("Staged"@.len() != "Bootloaded"@.len());
    }
    assert(notice_delta(notice_reaction(success_message(Report::Wipe), autoinstall)) == 5);
    assert(notice_delta(notice_reaction(success_message(Report::Download), autoinstall)) == 25);
    assert(notice_delta(notice_reaction(success_message(Report::Apply), autoinstall)) == 25);
    assert(notice_delta(notice_reaction(success_message(Report::Bootloader), autoinstall)) == 15);
    assert(notice_delta(notice_reaction(success_message(Report::Staging), autoinstall)) == 15);
    assert forall|r: Report| #[trigger] notice_reaction(success_message(r), autoinstall) is Advance by {
        assert(success_message(r).len() > 0);
    }
}

proof fn lemma_long_status_is_failure(status: Seq<char>, autoinstall: bool)
    requires
        status.len() > 10,
    ensures
        notice_reaction(status, autoinstall) is Failure,
{
    reveal_strlit("DiskWiped");
    reveal_strlit("Downloaded");
    reveal_strlit("Extracted");
    reveal_strlit("Bootloaded");
    reveal_strlit("Staged");
}

/// A step whose program could not be started is reported to the form as an
/// error, whatever the error code: the form stops and is given back.
pub proof fn law_failed_command_is_an_error(code: i32, autoinstall: bool)
    ensures
        notice_reaction(command_status(Report::Wipe, "Error wiping disk "@, Err(code)), autoinstall) is Failure,
        notice_reaction(command_status(Report::Apply, "Error extracting WIM "@, Err(code)), autoinstall) is Failure,
        notice_reaction(
            command_status(Report::Bootloader, "Error installing bootloader "@, Err(code)),
            autoinstall,
        ) is Failure,
{
    reveal_strlit("Error wiping disk ");
    reveal_strlit("Error extracting WIM ");
    reveal_strlit("Error installing bootloader ");
    lemma_long_status_is_failure(command_status(Report::Wipe, "Error wiping disk "@, Err(code)), autoinstall);
    lemma_long_status_is_failure(command_status(Report::Apply, "Error extracting WIM "@, Err(code)), autoinstall);
    lemma_long_status_is_failure(
        command_status(Report::Bootloader, "Error installing bootloader "@, Err(code)),
        autoinstall,
    );
}

/// A setting's value, or `default` when it is not set.
pub open spec fn setting_or(settings: &Settings, section: Seq<char>, key: Seq<char>, default: Seq<char>) -> Seq<char> {
    match settings.value(section, key) {
        Some(v) => v,
        None => default,
    }
}

pub open spec fn optional_text(o: Option<String>) -> Option<Seq<char>> {
    match o {
        Some(v) => Some(v@),
        None => None,
    }
}

/// The error shown when the image URL does not answer.
pub open spec fn invalid_url_message(url: Seq<char>) -> Seq<char> {
    "The URL "@ + url + " is not valid"@
}

fn setting_with_default(settings: &Settings, section: &str, key: &str, default: &str) -> (r: String)
    ensures
        r@ == setting_or(settings, section@, key@, default@),
{
    match settings.get(section, key) {
        Some(v) => v,
        None => owned(default),
    }
}

impl ImagingApp {
    /// The form as it is first filled from the settings: `os.download_url`,
    /// `storage.temp_wim_path`, `storage.temp_path`, `os.index`, and
    /// `network.check_url` (the download URL when unset), each with its
    /// default.
    pub fn setup(settings: &Settings) -> (app: ImagingApp)
        ensures
            app.download_url@ == setting_or(settings, "os"@, "download_url"@, "https://server.tld/Win11.wim"@),
            app.wim_temp_path@ == setting_or(settings, "storage"@, "temp_wim_path"@, "W:\\install.wim"@),
            app.file_temp_path@ == setting_or(settings, "storage"@, "temp_path"@, "W:\\windows\\temp"@),
            app.image_index@ == setting_or(settings, "os"@, "index"@, "1"@),
            app.network_check_url@ == setting_or(settings, "network"@, "check_url"@, app.download_url@),
    {
        proof {
            reveal_strlit("os");
            reveal_strlit("storage");
            reveal_strlit("network");
            reveal_strlit("download_url");
            reveal_strlit("temp_wim_path");
            reveal_strlit("temp_path");
            reveal_strlit("index");
            reveal_strlit("check_url");
        }
        let download_url = setting_with_default(
            settings,
            "os",
            "download_url",
            "https://server.tld/Win11.wim",
        );
        let wim_temp_path = setting_with_default(settings, "storage", "temp_wim_path", "W:\\install.wim");
        let file_temp_path = setting_with_default(settings, "storage", "temp_path", "W:\\windows\\temp");
        let image_index = setting_with_default(settings, "os", "index", "1");
        let network_check_url = setting_with_default(
            settings,
            "network",
            "check_url",
            download_url.as_str(),
        );
        ImagingApp { download_url, wim_temp_path, file_temp_path, image_index, network_check_url }
    }

    /// Whether the installation runs by itself: `deploy.auto_install` reads
    /// as true (`1`, `true`, ...).
    pub fn is_autoinstall(settings: &Settings) -> (res: bool)
        ensures
            res == settings.flag_value("deploy"@, "auto_install"@),
    {
        proof {
            reveal_strlit("deploy");
            reveal_strlit("auto_install");
        }
        settings.flag("deploy", "auto_install")
    }

    /// Whether an installation may start once the user was asked (`answer`
    /// is `Some(yes)`) or, for an automatic installation, not asked (`None`):
    /// only without a question or with a yes.
    pub fn may_start(answer: Option<bool>) -> (res: bool)
        ensures
            res == (answer is None || answer == Some(true)),
    {
        match answer {
            Some(yes) => yes,
            None => true,
        }
    }

    /// Whether setup starts an automatic installation after waiting for the
    /// network: only when `deploy.auto_install` is on and the wait reported
    /// the network usable.
    pub fn auto_start(settings: &Settings, wait: &Result<bool, String>) -> (res: bool)
        ensures
            res == (settings.flag_value("deploy"@, "auto_install"@) && *wait == Ok::<bool, String>(true)),
    {
        Self::is_autoinstall(settings) && Self::network_ready(wait)
    }

    /// Whether the user must confirm the wipe before an installation starts:
    /// only when it does not run by itself.
    pub fn needs_confirmation(settings: &Settings) -> (res: bool)
        ensures
            res == !settings.flag_value("deploy"@, "auto_install"@),
    {
        !Self::is_autoinstall(settings)
    }

    /// The image index to apply: the form's value when it is a number from 0
    /// to 255, else 1.
    pub fn image_index_value(&self) -> (res: u8)
        ensures
            res == match parse_u8_spec(self.image_index@) {
                Some(v) => v,
                None => 1u8,
            },
    {
        match parse_u8(self.image_index.as_str()) {
            Some(v) => v,
            None => 1,
        }
    }

    /// Starts an installation from the form. `url_reachable` is the answer of
    /// the probe of the download URL; `disks` are the machine's disks, used
    /// when no path for the image is given. The run wipes the disk, downloads
    /// and applies the image, installs the bootloader, applies the unattend
    /// file of `deploy.unattend_download_path` and stages the files of
    /// `deploy.stage_folder`, `deploy.stage_download_zip` and
    /// `deploy.drivers_download_zip`.
    pub fn install_windows(
        &self,
        url_reachable: bool,
        disks: &Vec<DiskInfo>,
        settings: &Settings,
        product: ProductInfo,
        in_pe: bool,
    ) -> (res: Result<InstallJob, String>)
        requires
            url_reachable && self.wim_temp_path@.len() == 0 ==> forall|i: int|
                0 <= i < disks@.len() && disk_eligible(#[trigger] disks@[i]) ==> disks@[i].mount_point_utf8,
        ensures
            match res {
                Err(m) => !url_reachable && m@ == invalid_url_message(self.download_url@),
                Ok(job) => url_reachable && {
                &&& job.url@ == self.download_url@
                &&& job.wim_path@ == if self.wim_temp_path@.len() == 0 {
                    wim_save_path(disks@)
                } else {
                    self.wim_temp_path@
                }
                &&& job.image_index == match parse_u8_spec(self.image_index@) {
                    Some(v) => v,
                    None => 1u8,
                }
                &&& job.temp_files_path@ == self.file_temp_path@
                &&& job.in_pe == in_pe
                &&& job.format_script@ == setting_or(settings, "storage"@, "format_script"@, "DiskPart.txt"@)
                &&& job.product == product
            },
            },
    {
        if !url_reachable {
            let mut m = owned("The URL ");
            m.append(self.download_url.as_str());
            m.append(" is not valid");
            return Err(m);
        }
        let wim_path = if self.wim_temp_path.as_str().is_empty() {
            match Self::locate_wim_save_space(disks) {
                Ok(p) => p,
                Err(_) => owned("image.wim"),
            }
        } else {
            self.wim_temp_path.clone()
        };
        proof {
            reveal_strlit("storage");
            reveal_strlit("format_script");
        }
        let format_script = setting_with_default(settings, "storage", "format_script", "DiskPart.txt");
        Ok(
            InstallJob {
                url: self.download_url.clone(),
                wim_path,
                image_index: self.image_index_value(),
                temp_files_path: self.file_temp_path.clone(),
                in_pe,
                format_script,
                product,
            },
        )
    }

    /// What the form does with a status from the installation.
    pub fn on_notice(status: &str, autoinstall: bool) -> (res: NoticeReaction)
        ensures
            res@ == notice_reaction(status@, autoinstall),
    {
        if same_text(status, "Downloaded") {
            NoticeReaction::Advance { delta: 25, status: owned("Unpacking WIM"), finished: false }
        } else if same_text(status, "DiskWiped") {
            NoticeReaction::Advance { delta: 5, status: owned("Downloading"), finished: false }
        } else if same_text(status, "Extracted") {
            NoticeReaction::Advance { delta: 25, status: owned("Installing bootloader"), finished: false }
        } else if same_text(status, "Bootloaded") {
            NoticeReaction::Advance {
                delta: 15,
                status: owned("Checking for any staging files"),
                finished: false,
            }
        } else if same_text(status, "Staged") {
            NoticeReaction::Advance {
                delta: 15,
                status: owned("Files are staged, we are ready to reboot"),
                finished: !autoinstall,
            }
        } else {
            let mut m = owned("Error ");
            m.append(status);
            NoticeReaction::Failure { message: m }
        }
    }

    /// The form while an installation runs (`running`) or not: the progress
    /// shows only while running, the start button and the inputs only when
    /// not.
    pub fn set_ui(running: bool) -> (ui: UiLayout)
        ensures
            ui.download_label_visible == running,
            ui.install_progress_visible == running,
            ui.install_status_visible == running,
            ui.start_button_visible == !running,
            ui.download_url_enabled == !running,
            ui.wim_temp_path_enabled == !running,
            ui.file_temp_path_enabled == !running,
    {
        UiLayout {
            download_label_visible: running,
            install_progress_visible: running,
            install_status_visible: running,
            start_button_visible: !running,
            download_url_enabled: !running,
            wim_temp_path_enabled: !running,
            file_temp_path_enabled: !running,
        }
    }

    /// When to stop waiting for the network: `timeout_secs` seconds after
    /// `now_nanos` (nanoseconds since the Unix epoch).
    pub fn network_deadline(now_nanos: u128, timeout_secs: u32) -> (deadline: u128)
        requires
            now_nanos + timeout_secs * 1_000_000_000 <= u128::MAX,
        ensures
            deadline == now_nanos + timeout_secs * 1_000_000_000,
    {
        now_nanos + (timeout_secs as u128) * 1_000_000_000
    }

    /// Whether to sleep and probe again: the probe failed and the deadline
    /// has not passed.
    pub fn keep_waiting(probe: &Result<bool, ()>, now_nanos: u128, deadline: u128) -> (res: bool)
        ensures
            res == (probe is Err && now_nanos < deadline),
    {
        probe.is_err() && now_nanos < deadline
    }

    /// The end of the wait for the network, from a last probe: whether the
    /// probe could be made.
    pub fn wait_for_network(last_probe: &Result<bool, ()>) -> (res: Result<bool, String>)
        ensures
            res == Ok::<bool, String>(last_probe is Ok),
    {
        Ok(last_probe.is_ok())
    }

    /// Whether an automatic installation starts after the wait: only when the
    /// wait reported the network usable.
    pub fn network_ready(wait: &Result<bool, String>) -> (res: bool)
        ensures
            res == (*wait == Ok::<bool, String>(true)),
    {
        match wait {
            Ok(b) => *b,
            Err(_) => false,
        }
    }
}

} // verus!
