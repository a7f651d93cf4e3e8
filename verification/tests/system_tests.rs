use http_imager::imaging::ImagingApp;
use http_imager::system::{DiskInfo, IpAddress, IpNetworkInfo, NetworkInterface, ProductInfo};

fn product(v: Option<&str>, m: Option<&str>, k: Option<&str>, s: Option<&str>) -> ProductInfo {
    ProductInfo {
        vendor_name: v.map(String::from),
        name: m.map(String::from),
        stock_keeping_unit: k.map(String::from),
        serial_number: s.map(String::from),
    }
}

fn v4(o: [u8; 4], prefix: u8) -> IpNetworkInfo {
    IpNetworkInfo {
        address: IpAddress::V4(o),
        text: format!("{}.{}.{}.{}", o[0], o[1], o[2], o[3]),
        prefix,
    }
}

fn v6(s: [u16; 8], text: &str, prefix: u8) -> IpNetworkInfo {
    IpNetworkInfo { address: IpAddress::V6(s), text: text.to_string(), prefix }
}

fn disk(name: &str, mount: &str, removable: bool, read_only: bool, available: u64, total: u64) -> DiskInfo {
    DiskInfo {
        name: name.to_string(),
        mount_point: mount.to_string(),
        mount_point_utf8: true,
        is_removable: removable,
        is_read_only: read_only,
        available_space: available,
        total_space: total,
    }
}

#[test]
fn vendor_and_model_are_substituted_in_urls() {
    let info = product(Some("Dell Inc."), Some("Latitude 5440"), Some("SKU1"), Some("ABC123"));
    let url = ImagingApp::sub_system_info_vars("http://127.0.0.1/{vendor}-{model}.zip", &info);
    assert_eq!(url, "http://127.0.0.1/Dell Inc.-Latitude 5440.zip");
    let all = ImagingApp::sub_system_info_vars("{sku}/{serial}/{vendor}{vendor}", &info);
    assert_eq!(all, "SKU1/ABC123/Dell Inc.Dell Inc.");
}

#[test]
fn unknown_identity_uses_placeholders() {
    let info = product(None, None, None, None);
    let s = ImagingApp::sub_system_info_vars("{vendor}|{model}|{sku}|{serial}", &info);
    assert_eq!(s, "NO_VENDOR_FOUND|NO_MODEL_FOUND|NO_SKU_FOUND|NO_SERIAL_FOUND");
}

#[test]
fn text_without_placeholders_is_unchanged() {
    let info = product(Some("A"), Some("B"), None, None);
    assert_eq!(ImagingApp::sub_system_info_vars("X:\\stage", &info), "X:\\stage");
}

#[test]
fn substitution_order_is_vendor_model_sku_serial() {
    let info = product(Some("{model}"), Some("M"), None, None);
    assert_eq!(ImagingApp::sub_system_info_vars("{vendor}", &info), "M");
}

#[test]
fn first_ip_skips_unusable_addresses() {
    let quiet = NetworkInterface { addresses: vec![v4([10, 0, 0, 9], 8)], total_packets_received: 1000 };
    let busy = NetworkInterface {
        addresses: vec![
            v4([127, 0, 0, 1], 8),
            v4([224, 0, 0, 1], 4),
            v4([0, 0, 0, 0], 0),
            v4([169, 254, 3, 4], 16),
            v6([0xfe80, 0, 0, 0, 1, 2, 3, 4], "fe80::1:2:3:4", 64),
            v6([0, 0, 0, 0, 0, 0, 0, 1], "::1", 128),
            v6([0xff02, 0, 0, 0, 0, 0, 0, 1], "ff02::1", 16),
            v4([192, 168, 1, 20], 24),
            v4([192, 168, 1, 21], 24),
        ],
        total_packets_received: 1001,
    };
    assert_eq!(ImagingApp::get_first_ip(&vec![quiet, busy]), Ok("192.168.1.20/24".to_string()));
}

#[test]
fn first_ip_of_ipv6_and_none() {
    let ifaces = vec![NetworkInterface {
        addresses: vec![v6([0x2001, 0xdb8, 0, 0, 0, 0, 0, 5], "2001:db8::5", 64)],
        total_packets_received: 5000,
    }];
    assert_eq!(ImagingApp::get_first_ip(&ifaces), Ok("2001:db8::5/64".to_string()));
    assert_eq!(ImagingApp::get_first_ip(&vec![]), Err(()));
    let lo = vec![NetworkInterface { addresses: vec![v4([127, 0, 0, 1], 8)], total_packets_received: 99999 }];
    assert_eq!(ImagingApp::get_first_ip(&lo), Err(()));
}

#[test]
fn first_disk_label() {
    let disks = vec![disk("Disk0", "C:\\", false, false, 8_000_000_001, 256_060_514_304)];
    assert_eq!(ImagingApp::get_disks(&disks), Ok("Disk0 C:\\ 256 GB".to_string()));
    let small = vec![disk("Disk0", "C:\\", false, false, 8_000_000_000, 256_060_514_304)];
    assert_eq!(ImagingApp::get_disks(&small), Err(()));
    let usb = vec![disk("Usb", "E:\\", true, false, 90_000_000_000, 128_000_000_000)];
    assert_eq!(ImagingApp::get_disks(&usb), Err(()));
    let ro = vec![disk("Ro", "F:\\", false, true, 90_000_000_000, 128_000_000_000)];
    assert_eq!(ImagingApp::get_disks(&ro), Err(()));
    assert_eq!(ImagingApp::get_disks(&vec![]), Err(()));
}

#[test]
fn wim_save_space_is_on_the_last_eligible_disk() {
    let disks = vec![
        disk("A", "C:\\", false, false, 50_000_000_000, 100_000_000_000),
        disk("B", "D:\\", false, false, 60_000_000_000, 100_000_000_000),
        disk("C", "E:\\", true, false, 60_000_000_000, 100_000_000_000),
    ];
    assert_eq!(ImagingApp::locate_wim_save_space(&disks), Ok("D:\\image.wim".to_string()));
    assert_eq!(ImagingApp::locate_wim_save_space(&vec![]), Ok("image.wim".to_string()));
}

#[test]
fn status_bar_line() {
    assert_eq!(
        ImagingApp::update_status_bar(&Ok("10.0.0.2/24".to_string()), &Ok("Disk0 C:\\ 256 GB".to_string())),
        "IP Address - 10.0.0.2/24; First Disk - Disk0 C:\\ 256 GB"
    );
    assert_eq!(
        ImagingApp::update_status_bar(&Err(()), &Err(())),
        "IP Address - Undefined; First Disk - No disks found"
    );
}
