use http_imager::imaging::{ImagingApp, NoticeReaction, PROGRESS_END, PROGRESS_START};
use http_imager::procedure::{Action, Event, InstallJob, InstallState, UnattendConfig, UnattendState};
use http_imager::settings::Settings;
use http_imager::system::{DiskInfo, ProductInfo};

fn product() -> ProductInfo {
    ProductInfo {
        vendor_name: Some("Dell".to_string()),
        name: Some("XPS".to_string()),
        stock_keeping_unit: None,
        serial_number: None,
    }
}

fn app() -> ImagingApp {
    ImagingApp {
        download_url: "http://srv/install.wim".to_string(),
        wim_temp_path: "W:\\install.wim".to_string(),
        file_temp_path: "X:\\temp".to_string(),
        image_index: "2".to_string(),
        network_check_url: "http://srv/".to_string(),
    }
}

/// A job started with the settings `text`, which the settings file keeps
/// holding while the job runs.
fn job_with(text: &str, in_pe: bool) -> (InstallJob, String) {
    let settings = Settings::load(Some(text.to_string()));
    match app().install_windows(true, &vec![], &settings, product(), in_pe) {
        Ok(job) => (job, text.to_string()),
        Err(e) => panic!("refused: {}", e),
    }
}

fn describe(a: &Action) -> String {
    match a {
        Action::Run(c) => format!("run {} {}", c.program, c.args.join(" ")),
        Action::CheckPath(p) => format!("exists {}", p),
        Action::CheckUrl(u) => format!("probe {}", u),
        Action::EnsureDirectory(p) => format!("mkdir {}", p),
        Action::Download { url, destination } => format!("download {} -> {}", url, destination),
        Action::ExtractZip { archive, destination } => format!("extract {} -> {}", archive, destination),
        Action::RemoveFile(p) => format!("remove {}", p),
        Action::Publish(s) => format!("publish {}", s),
        Action::ReadSettings => "read settings".to_string(),
        Action::Stop => "stop".to_string(),
    }
}

/// Runs a job to its end, answering settings reads with its settings text
/// and every other action with `answer`; returns the actions asked for, in
/// order.
fn run(setup: &(InstallJob, String), answer: impl FnMut(&Action) -> Event) -> Vec<String> {
    let text = setup.1.clone();
    run_reading(&setup.0, move || text.clone(), answer)
}

/// Runs a job to its end; each settings read gets the text `read` gives.
fn run_reading(
    job: &InstallJob,
    mut read: impl FnMut() -> String,
    mut answer: impl FnMut(&Action) -> Event,
) -> Vec<String> {
    let mut st = job.first();
    let mut log = Vec::new();
    for _ in 0..200 {
        let a = job.action(&st);
        log.push(describe(&a));
        if let Action::Stop = a {
            return log;
        }
        let ev = match a {
            Action::ReadSettings => Event::SettingsRead(Settings::load(Some(read()))),
            _ => answer(&a),
        };
        st = job.next(&st, &ev);
    }
    panic!("run did not end: {:?}", log);
}

fn success(a: &Action) -> Event {
    match a {
        Action::Run(_) => Event::Ran(Ok(())),
        Action::CheckPath(_) => Event::PathChecked(true),
        Action::CheckUrl(_) => Event::UrlChecked(Ok(true)),
        Action::Download { .. } => Event::Downloaded(Ok(())),
        Action::ExtractZip { .. } => Event::Extracted(Ok(())),
        _ => Event::Completed,
    }
}

fn published(log: &[String]) -> Vec<String> {
    log.iter().filter_map(|l| l.strip_prefix("publish ").map(String::from)).collect()
}

const FULL: &str = "[storage]\nformat_script = Wipe.txt\n[deploy]\n\
unattend_download_path = http://srv/{model}.xml\n\
stage_folder = X:\\stage\n\
stage_download_zip = http://srv/{vendor}-{model}.zip\n\
drivers_download_zip = http://srv/drivers/{model}.zip\n";

#[test]
fn successful_run_in_pe_does_every_step_in_order() {
    let job = job_with(FULL, true);
    let log = run(&job, success);
    let expected = vec![
        "run diskpart.exe /s Wipe.txt",
        "publish DiskWiped",
        "download http://srv/install.wim -> W:\\install.wim",
        "publish Downloaded",
        "run dism.exe /Apply-Image /ImageFile:W:\\install.wim /Index:2 /ApplyDir:W:\\",
        "publish Extracted",
        "remove W:\\install.wim",
        "run W:\\Windows\\System32\\bcdboot.exe W:\\Windows /s S:",
        "publish Bootloaded",
        "read settings",
        "probe http://srv/XPS.xml",
        "mkdir W:\\Windows\\Panther\\",
        "download http://srv/XPS.xml -> W:\\Windows\\Panther\\unattend.xml",
        "run dism.exe /Image:W:\\ /Apply-Unattend:W:\\Windows\\Panther\\unattend.xml",
        "remove W:\\Windows\\Panther\\unattend.xml",
        "read settings",
        "exists X:\\stage",
        "run xcopy.exe X:\\stage W:\\ /E /H /Q /Y",
        "probe http://srv/Dell-XPS.zip",
        "mkdir X:\\temp",
        "download http://srv/Dell-XPS.zip -> X:\\temp\\stage.zip",
        "extract X:\\temp\\stage.zip -> W:\\",
        "remove X:\\temp\\stage.zip",
        "probe http://srv/drivers/XPS.zip",
        "mkdir X:\\temp",
        "download http://srv/drivers/XPS.zip -> X:\\temp\\drivers.zip",
        "extract X:\\temp\\drivers.zip -> W:\\",
        "remove X:\\temp\\drivers.zip",
        "publish Staged",
        "stop",
    ];
    assert_eq!(log, expected);
}

#[test]
fn successful_run_fills_the_progress_bar() {
    let job = job_with(FULL, true);
    let statuses = published(&run(&job, success));
    let mut progress = PROGRESS_START;
    let mut finished = false;
    for s in &statuses {
        match ImagingApp::on_notice(s, false) {
            NoticeReaction::Advance { delta, finished: f, .. } => {
                progress += delta;
                finished = f;
            }
            NoticeReaction::Failure { message } => panic!("unexpected failure {}", message),
        }
    }
    assert_eq!(progress, PROGRESS_END);
    assert!(finished);
}

#[test]
fn outside_pe_the_disk_is_left_alone() {
    let job = job_with("", false);
    let log = run(&job, success);
    assert_eq!(
        log,
        vec![
            "publish DiskWiped",
            "download http://srv/install.wim -> W:\\install.wim",
            "publish Downloaded",
            "publish Extracted",
            "remove W:\\install.wim",
            "publish Bootloaded",
            "read settings",
            "read settings",
            "publish Staged",
            "stop",
        ]
    );
}

#[test]
fn failing_steps_are_reported_and_the_run_goes_on() {
    let job = job_with("", true);
    let log = run(&job, |a| match a {
        Action::Run(c) if c.program == "diskpart.exe" => Event::Ran(Err(5)),
        Action::Run(c) if c.program == "dism.exe" => Event::Ran(Err(-2)),
        Action::Run(_) => Event::Ran(Err(2)),
        Action::Download { .. } => Event::Downloaded(Err("Error downloading file  http://srv/install.wim".to_string())),
        other => success(other),
    });
    assert_eq!(
        published(&log),
        vec![
            "Error wiping disk 5",
            "Error downloading file  http://srv/install.wim",
            "Error extracting WIM -2",
            "Error installing bootloader 2",
            "Staged",
        ]
    );
    for s in &published(&log)[..4] {
        assert!(matches!(ImagingApp::on_notice(s, false), NoticeReaction::Failure { .. }));
    }
}

#[test]
fn unreachable_archive_stops_staging_unless_allowed() {
    let text = "[deploy]\nstage_download_zip = http://srv/{vendor}.zip\n";
    let refuse = |a: &Action| match a {
        Action::CheckUrl(_) => Event::UrlChecked(Ok(false)),
        other => success(other),
    };
    let stopped = run(&job_with(text, true), refuse);
    assert_eq!(
        published(&stopped).last().unwrap(),
        "Error with download from http://srv/Dell.zip - Zip may not exist or server may be down."
    );
    assert!(!stopped.iter().any(|l| l.starts_with("extract")));

    let allowed_text = format!("{}stage_download_continue_on_error = 1\n", text);
    let allowed = run(&job_with(&allowed_text, true), refuse);
    assert!(allowed.iter().any(|l| l == "extract X:\\temp\\stage.zip -> W:\\"));
    assert_eq!(published(&allowed).last().unwrap(), "Staged");
}

#[test]
fn failed_probe_stops_staging() {
    let text = "[deploy]\ndrivers_download_zip = http://srv/d.zip\nstage_download_continue_on_error = 1\n";
    let log = run(&job_with(text, true), |a| match a {
        Action::CheckUrl(_) => Event::UrlChecked(Err(())),
        other => success(other),
    });
    assert_eq!(published(&log).last().unwrap(), "Error with download from http://srv/d.zip.");
}

#[test]
fn missing_stage_folder_and_failed_copy() {
    let text = "[deploy]\nstage_folder = X:\\{model}\n";
    let missing = run(&job_with(text, true), |a| match a {
        Action::CheckPath(_) => Event::PathChecked(false),
        other => success(other),
    });
    assert_eq!(published(&missing).last().unwrap(), "Path for staging files 'X:\\{model}' does not exist");
    let failed = run(&job_with(text, true), |a| match a {
        Action::Run(c) if c.program == "xcopy.exe" => Event::Ran(Err(3)),
        other => success(other),
    });
    assert_eq!(published(&failed).last().unwrap(), "Error with local copy 3 . Tried from X:\\{model}");
}

#[test]
fn failed_extraction_reports_the_archive_error() {
    let text = "[deploy]\nstage_download_zip = http://srv/s.zip\ndrivers_download_zip = http://srv/d.zip\n";
    let log = run(&job_with(text, true), |a| match a {
        Action::ExtractZip { .. } => Event::Extracted(Err("invalid Zip archive".to_string())),
        other => success(other),
    });
    assert_eq!(published(&log).last().unwrap(), "invalid Zip archive");
    assert!(!log.iter().any(|l| l.contains("drivers")));
}

#[test]
fn unattend_failure_is_silent_and_skips_to_staging() {
    let text = "[deploy]\nunattend_download_path = http://srv/u.xml\n";
    let log = run(&job_with(text, true), |a| match a {
        Action::CheckUrl(_) => Event::UrlChecked(Ok(false)),
        other => success(other),
    });
    assert!(!log.iter().any(|l| l.starts_with("mkdir W:\\Windows\\Panther")));
    assert_eq!(published(&log).last().unwrap(), "Staged");
}

#[test]
fn unanswering_events_leave_the_run_in_place() {
    let (job, _) = job_with("", true);
    let st = job.first();
    let same = job.next(&st, &Event::Completed);
    assert!(matches!(same, InstallState::Wiping));
    let done = InstallState::Finished;
    assert!(matches!(job.action(&done), Action::Stop));
    assert!(matches!(job.next(&done, &Event::Completed), InstallState::Finished));
}

#[test]
fn install_refuses_unreachable_url() {
    let settings = Settings::empty();
    match app().install_windows(false, &vec![], &settings, product(), true) {
        Err(m) => assert_eq!(m, "The URL http://srv/install.wim is not valid"),
        Ok(_) => panic!("accepted"),
    }
}

#[test]
fn install_picks_disk_and_index_defaults() {
    let mut a = app();
    a.wim_temp_path = String::new();
    a.image_index = "abc".to_string();
    let disks = vec![DiskInfo {
        name: "Disk0".to_string(),
        mount_point: "D:\\".to_string(),
        mount_point_utf8: true,
        is_removable: false,
        is_read_only: false,
        available_space: 100_000_000_000,
        total_space: 200_000_000_000,
    }];
    let job = a.install_windows(true, &disks, &Settings::empty(), product(), true).ok().unwrap();
    assert_eq!(job.wim_path, "D:\\image.wim");
    assert_eq!(job.image_index, 1);
    assert_eq!(job.format_script, "DiskPart.txt");
    assert_eq!(job.temp_files_path, "X:\\temp");
}

#[test]
fn notices_move_progress_or_fail() {
    let cases = [
        ("Downloaded", 25, "Unpacking WIM"),
        ("DiskWiped", 5, "Downloading"),
        ("Extracted", 25, "Installing bootloader"),
        ("Bootloaded", 15, "Checking for any staging files"),
    ];
    for (s, d, text) in cases {
        match ImagingApp::on_notice(s, false) {
            NoticeReaction::Advance { delta, status, finished } => {
                assert_eq!(delta, d);
                assert_eq!(status, text);
                assert!(!finished);
            }
            _ => panic!("failure for {}", s),
        }
    }
    match ImagingApp::on_notice("Staged", true) {
        NoticeReaction::Advance { delta, status, finished } => {
            assert_eq!(delta, 15);
            assert_eq!(status, "Files are staged, we are ready to reboot");
            assert!(!finished);
        }
        _ => panic!(),
    }
    match ImagingApp::on_notice("Path missing", false) {
        NoticeReaction::Failure { message } => assert_eq!(message, "Error Path missing"),
        _ => panic!(),
    }
}

#[test]
fn form_layout_while_running_and_idle() {
    let running = ImagingApp::set_ui(true);
    assert!(running.install_progress_visible && running.download_label_visible && running.install_status_visible);
    assert!(!running.start_button_visible && !running.download_url_enabled);
    assert!(!running.wim_temp_path_enabled && !running.file_temp_path_enabled);
    let idle = ImagingApp::set_ui(false);
    assert!(!idle.install_progress_visible && idle.start_button_visible && idle.download_url_enabled);
}

#[test]
fn network_wait_decisions() {
    let deadline = ImagingApp::network_deadline(1_000, 30);
    assert_eq!(deadline, 30_000_001_000);
    assert!(ImagingApp::keep_waiting(&Err(()), 1_000, deadline));
    assert!(!ImagingApp::keep_waiting(&Err(()), deadline, deadline));
    assert!(!ImagingApp::keep_waiting(&Ok(false), 1_000, deadline));
    assert_eq!(ImagingApp::wait_for_network(&Ok(false)), Ok(true));
    assert_eq!(ImagingApp::wait_for_network(&Err(())), Ok(false));
    assert!(ImagingApp::network_ready(&Ok(true)));
    assert!(!ImagingApp::network_ready(&Ok(false)));
    assert!(!ImagingApp::network_ready(&Err("x".to_string())));
}

#[test]
fn allowed_unreachable_archive_that_fails_to_download_is_skipped() {
    let text = "[deploy]\nstage_download_zip = http://srv/{vendor}.zip\n\
drivers_download_zip = http://srv/drivers.zip\nstage_download_continue_on_error = 1\n";
    let log = run(&job_with(text, true), |a| match a {
        Action::CheckUrl(u) if u == "http://srv/Dell.zip" => Event::UrlChecked(Ok(false)),
        Action::Download { url, .. } if url == "http://srv/Dell.zip" => {
            Event::Downloaded(Err("Error downloading file  http://srv/Dell.zip".to_string()))
        }
        other => success(other),
    });
    assert!(log.iter().any(|l| l == "download http://srv/Dell.zip -> X:\\temp\\stage.zip"));
    assert!(!log.iter().any(|l| l == "extract X:\\temp\\stage.zip -> W:\\"));
    assert!(!log.iter().any(|l| l == "remove X:\\temp\\stage.zip"));
    assert!(log.iter().any(|l| l == "extract X:\\temp\\drivers.zip -> W:\\"));
    assert_eq!(published(&log).last().unwrap(), "Staged");
}

#[test]
fn allowed_unreachable_last_archive_that_fails_ends_staged() {
    let text = "[deploy]\ndrivers_download_zip = http://srv/d.zip\nstage_download_continue_on_error = 1\n";
    let log = run(&job_with(text, true), |a| match a {
        Action::CheckUrl(_) => Event::UrlChecked(Ok(false)),
        Action::Download { url, .. } if url.ends_with(".zip") => Event::Downloaded(Err("down".to_string())),
        other => success(other),
    });
    assert!(!log.iter().any(|l| l.starts_with("extract")));
    assert_eq!(published(&log).last().unwrap(), "Staged");
}

#[test]
fn unattend_outcomes() {
    let (job, _) = job_with("", true);
    let config = UnattendConfig::read(&Settings::load(Some(
        "[deploy]\nunattend_download_path = http://srv/{model}.xml\n".to_string(),
    )));
    assert_eq!(
        job.unattend_outcome(&config, UnattendState::CheckingUrl, &Event::UrlChecked(Ok(false))),
        Some(Err("Error with download of unattend from http://srv/XPS.xml - XML may not exist or may be down.".to_string()))
    );
    assert_eq!(
        job.unattend_outcome(&config, UnattendState::CheckingUrl, &Event::UrlChecked(Err(()))),
        Some(Err("Error with download from http://srv/XPS.xml.".to_string()))
    );
    assert_eq!(job.unattend_outcome(&config, UnattendState::CheckingUrl, &Event::UrlChecked(Ok(true))), None);
    assert_eq!(
        job.unattend_outcome(&config, UnattendState::Applying, &Event::Ran(Err(2))),
        Some(Err("Error with local copy 2 . Tried from W:\\Windows\\Panther\\unattend.xml".to_string()))
    );
    assert_eq!(job.unattend_outcome(&config, UnattendState::Applying, &Event::Ran(Ok(()))), None);
    assert_eq!(job.unattend_outcome(&config, UnattendState::Removing, &Event::Completed), Some(Ok(true)));
    let allowed = UnattendConfig::read(&Settings::load(Some(
        "[deploy]\nunattend_download_path = http://srv/u.xml\nstage_download_continue_on_error = true\n"
            .to_string(),
    )));
    assert_eq!(job.unattend_outcome(&allowed, UnattendState::CheckingUrl, &Event::UrlChecked(Ok(false))), None);
}

#[test]
fn unreachable_url_needs_no_disk_information() {
    let mut a = app();
    a.wim_temp_path = String::new();
    let disks = vec![DiskInfo {
        name: "Disk0".to_string(),
        mount_point: "D:\\".to_string(),
        mount_point_utf8: false,
        is_removable: false,
        is_read_only: false,
        available_space: 100_000_000_000,
        total_space: 200_000_000_000,
    }];
    match a.install_windows(false, &disks, &Settings::empty(), product(), true) {
        Err(m) => assert_eq!(m, "The URL http://srv/install.wim is not valid"),
        Ok(_) => panic!("accepted"),
    }
}

#[test]
fn steps_use_the_settings_as_they_read_when_the_step_starts() {
    let (job, _) = job_with("[deploy]\nstage_download_zip = http://srv/old.zip\n", true);
    let mut reads = vec![
        "[deploy]\nunattend_download_path = http://srv/u.xml\n".to_string(),
        "[deploy]\nstage_folder = X:\\new\n".to_string(),
    ]
    .into_iter();
    let log = run_reading(&job, move || reads.next().unwrap(), success);
    assert!(log.iter().any(|l| l == "probe http://srv/u.xml"));
    assert!(log.iter().any(|l| l == "exists X:\\new"));
    assert!(!log.iter().any(|l| l.contains("old.zip")));
    assert_eq!(published(&log).last().unwrap(), "Staged");
}

#[test]
fn start_decisions() {
    assert!(ImagingApp::may_start(None));
    assert!(ImagingApp::may_start(Some(true)));
    assert!(!ImagingApp::may_start(Some(false)));
    let auto = Settings::load(Some("[deploy]\nauto_install = 1\n".to_string()));
    assert!(ImagingApp::auto_start(&auto, &Ok(true)));
    assert!(!ImagingApp::auto_start(&auto, &Ok(false)));
    assert!(!ImagingApp::auto_start(&auto, &Err("x".to_string())));
    assert!(!ImagingApp::auto_start(&Settings::empty(), &Ok(true)));
}
