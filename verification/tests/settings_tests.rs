use http_imager::imaging::ImagingApp;
use http_imager::settings::Settings;

const SAMPLE: &str = "[storage]\n\
temp_wim_path = D:\\\\install.wim\n\
temp_path = D:\\\\temp\n\
format_script = Custom.txt\n\
[os]\n\
download_url = http://127.0.0.1/install.wim\n\
index = 3\n\
[deploy]\n\
auto_install = 1\n\
stage_folder = X:\\\\stage\n\
stage_download_zip = http://127.0.0.1/{vendor}-{model}.zip\n\
stage_download_continue_on_error = 0\n";

#[test]
fn missing_settings_file_gives_defaults() {
    let app = ImagingApp::setup(&Settings::load(None));
    assert_eq!(app.download_url, "https://server.tld/Win11.wim");
    assert_eq!(app.wim_temp_path, "W:\\install.wim");
    assert_eq!(app.file_temp_path, "W:\\windows\\temp");
    assert_eq!(app.image_index, "1");
    assert_eq!(app.network_check_url, "https://server.tld/Win11.wim");
    assert!(!ImagingApp::is_autoinstall(&Settings::empty()));
}

#[test]
fn settings_file_values_fill_the_form() {
    let settings = Settings::load(Some(SAMPLE.to_string()));
    let app = ImagingApp::setup(&settings);
    assert_eq!(app.download_url, "http://127.0.0.1/install.wim");
    assert_eq!(app.wim_temp_path, "D:\\\\install.wim");
    assert_eq!(app.file_temp_path, "D:\\\\temp");
    assert_eq!(app.image_index, "3");
    assert_eq!(app.network_check_url, "http://127.0.0.1/install.wim");
    assert!(ImagingApp::is_autoinstall(&settings));
}

#[test]
fn check_url_setting_overrides_download_url() {
    let settings = Settings::load(Some("[os]\ndownload_url=http://a/b.wim\n[network]\ncheck_url=http://a/\n".to_string()));
    let app = ImagingApp::setup(&settings);
    assert_eq!(app.download_url, "http://a/b.wim");
    assert_eq!(app.network_check_url, "http://a/");
}

#[test]
fn names_in_the_file_are_case_insensitive() {
    let settings = Settings::load(Some("[OS]\nDownload_URL = http://x/y.wim\n".to_string()));
    assert_eq!(settings.get("os", "download_url"), Some("http://x/y.wim".to_string()));
}

#[test]
fn auto_install_reads_zero_one_and_words() {
    for (v, expected) in [
        ("1", true), ("0", false), ("true", true), ("True", true), ("TRUE", true), ("yes", false),
        ("on", false), ("false", false), ("no", false), ("maybe", false), ("", false), ("01", false),
    ] {
        let settings = Settings::load(Some(format!("[deploy]\nauto_install = {}\n", v)));
        assert_eq!(ImagingApp::is_autoinstall(&settings), expected, "value {:?}", v);
    }
}

#[test]
fn key_without_value_counts_as_unset() {
    let settings = Settings::load(Some("[os]\ndownload_url\n".to_string()));
    assert_eq!(settings.get("os", "download_url"), None);
    assert_eq!(ImagingApp::setup(&settings).download_url, "https://server.tld/Win11.wim");
}

#[test]
fn unparsable_text_leaves_nothing_set() {
    let settings = Settings::load(Some("[os\ndownload_url = http://x\n".to_string()));
    assert_eq!(settings.get("os", "download_url"), None);
}

#[test]
fn settings_get_and_flag() {
    let settings = Settings::load(Some(SAMPLE.to_string()));
    assert_eq!(settings.get("storage", "format_script"), Some("Custom.txt".to_string()));
    assert_eq!(settings.get("storage", "missing"), None);
    assert_eq!(settings.get("missing", "format_script"), None);
    assert!(settings.flag("deploy", "auto_install"));
    assert!(!settings.flag("deploy", "stage_download_continue_on_error"));
    assert!(!settings.flag("deploy", "missing"));
}

#[test]
fn ascii_names_are_looked_up_without_letter_case() {
    let settings = Settings::load(Some("[os]\ndownload_url = http://x/y.wim\n[deploy]\nauto_install = true\n".to_string()));
    assert_eq!(settings.get("OS", "Download_URL"), Some("http://x/y.wim".to_string()));
    assert!(settings.flag("Deploy", "AUTO_INSTALL"));
}

#[test]
fn confirmation_is_asked_only_for_manual_installs() {
    let auto = Settings::load(Some("[deploy]\nauto_install = 1\n".to_string()));
    assert!(!ImagingApp::needs_confirmation(&auto));
    assert!(ImagingApp::needs_confirmation(&Settings::empty()));
}

#[test]
fn non_ascii_names_are_looked_up_lower_cased() {
    let settings = Settings::load(Some("[Äbschnitt]\nSchlüssel = Wert\n".to_string()));
    assert_eq!(settings.get("ÄBSCHNITT", "SCHLÜSSEL"), Some("Wert".to_string()));
    assert_eq!(settings.get("äbschnitt", "schlüssel"), Some("Wert".to_string()));
}
