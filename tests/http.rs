use std::path::PathBuf;

use base64::engine::general_purpose;
use base64::Engine;
use qr2term::render::{QrDark, QrLight};
use qrsync::error::QrSyncError;
use qrsync::address::AddressError;
use qrsync::http::QrSyncHttp;

#[test]
fn test_find_public_ip_passing_ip_address() {
    let ip_address = "10.0.0.1";
    let http = QrSyncHttp::new(
        Some(ip_address.to_string()),
        12345,
        Some("a-file".to_string()),
        PathBuf::from("a-dir"),
        false,
        false,
    );
    assert_eq!(http.find_public_ip().unwrap(), ip_address.to_string());
}

#[test]
fn test_find_public_ip_passing_autodetect() {
    let http = QrSyncHttp::new(
        None,
        12345,
        Some("a-file".to_string()),
        PathBuf::from("a-dir"),
        false,
        false,
    );
    // A non-loopback address is expected only on a host with an interface that is up, is not
    // loopback and has a routable IPv4 address; without one the documented error is expected.
    let candidate = pnet::datalink::interfaces()
        .into_iter()
        .find(|i| i.is_up() && !i.is_loopback() && !i.ips.is_empty());
    let usable = candidate.map_or(false, |i| {
        i.ips.iter().find(|n| n.is_ipv4()).map_or(false, |n| !n.ip().is_loopback())
    });
    if usable {
        assert_ne!(http.find_public_ip().unwrap(), "127.0.0.1".to_string());
    } else {
        let err = http.find_public_ip().unwrap_err();
        assert!(
            err == QrSyncError::Address(AddressError::NoInterface)
                || err == QrSyncError::Address(AddressError::Unroutable)
        );
    }
}

#[test]
fn test_generate_qr_code_url_send_mode() {
    let ip_address = "10.0.0.1";
    let file_name = "a-file";
    let http = QrSyncHttp::new(
        Some(ip_address.to_string()),
        12345,
        Some(file_name.to_string()),
        PathBuf::from("a-dir"),
        false,
        false,
    );
    let url = http.generate_qr_code_url(ip_address);
    assert_eq!(
        format!(
            "http://{}:12345/{}",
            ip_address,
            general_purpose::URL_SAFE_NO_PAD.encode(file_name)
        ),
        url
    );
}

#[test]
fn test_generate_qr_code_url_receive_mode() {
    let ip_address = "10.0.0.1";
    let http = QrSyncHttp::new(
        Some(ip_address.to_string()),
        12345,
        None,
        PathBuf::from("a-dir"),
        false,
        false,
    );
    let url = http.generate_qr_code_url(ip_address);
    assert_eq!(format!("http://{}:12345/receive", ip_address,), url);
}

#[test]
fn test_generate_qr_code_matrix_dark() {
    let ip_address = "10.0.0.1";
    let http = QrSyncHttp::new(
        Some(ip_address.to_string()),
        12345,
        None,
        PathBuf::from("a-dir"),
        false,
        false,
    );
    let url = http.generate_qr_code_url(ip_address);
    let qr = http.generate_qr_code_matrix(&url).unwrap();
    assert_eq!(qr.pixels().len(), 1089);
    let light_pixels = qr.pixels().iter().filter(|&n| *n == QrLight).count();
    let dark_pixels = qr.pixels().iter().filter(|&n| *n == QrDark).count();
    assert_eq!(light_pixels, 667);
    assert_eq!(dark_pixels, 422);
}

#[test]
fn test_generate_qr_code_matrix_light() {
    let ip_address = "10.0.0.1";
    let http = QrSyncHttp::new(
        Some(ip_address.to_string()),
        12345,
        None,
        PathBuf::from("a-dir"),
        true,
        false,
    );
    let url = http.generate_qr_code_url(ip_address);
    let qr = http.generate_qr_code_matrix(&url).unwrap();
    assert_eq!(qr.pixels().len(), 1089);
    let light_pixels = qr.pixels().iter().filter(|&n| *n == QrLight).count();
    let dark_pixels = qr.pixels().iter().filter(|&n| *n == QrDark).count();
    assert_eq!(light_pixels, 419);
    assert_eq!(dark_pixels, 670);
}

#[test]
fn qr_matrix_border_is_two_modules_of_the_quiet_color() {
    let http = QrSyncHttp::new(None, 5566, None, PathBuf::from("."), false, false);
    let qr = http.generate_qr_code_matrix("http://192.168.1.2:5566/receive").unwrap();
    let side = qr.size();
    let pixels = qr.pixels();
    for row in 0..side {
        for col in 0..side {
            if row < 2 || col < 2 || row >= side - 2 || col >= side - 2 {
                assert!(pixels[row * side + col] == QrLight);
            }
        }
    }
    // The finder pattern's corner sits right inside the border.
    assert!(pixels[2 * side + 2] == QrDark);
}

#[test]
fn qr_matrix_of_oversized_data_is_refused() {
    let http = QrSyncHttp::new(None, 5566, None, PathBuf::from("."), false, false);
    let data = "a".repeat(8000);
    assert_eq!(http.generate_qr_code_matrix(&data).unwrap_err(), QrSyncError::QrCode);
}

#[test]
fn url_carries_port_in_decimal() {
    let http = QrSyncHttp::new(None, 0, None, PathBuf::from("."), false, false);
    assert_eq!(http.generate_qr_code_url("192.0.2.2"), "http://192.0.2.2:0/receive");
    let http = QrSyncHttp::new(None, 5566, None, PathBuf::from("."), false, false);
    assert_eq!(http.generate_qr_code_url("192.0.2.2"), "http://192.0.2.2:5566/receive");
    let http = QrSyncHttp::new(None, 65535, Some("é x.txt".to_string()), PathBuf::from("."), false, false);
    assert_eq!(http.generate_qr_code_url("fd00::2"), "http://fd00::2:65535/w6kgeC50eHQ");
}

#[test]
fn explicit_address_is_returned_as_written() {
    let http = QrSyncHttp::new(Some("fd00::2".to_string()), 5566, None, PathBuf::from("."), false, true);
    assert_eq!(http.find_public_ip().unwrap(), "fd00::2");
}

#[test]
fn explicit_address_that_is_no_ip_literal_is_invalid() {
    for text in ["10.0.0.1/24", "localhost", "", "10.0.0.256", "10.0.0.1 "] {
        let http = QrSyncHttp::new(Some(text.to_string()), 5566, None, PathBuf::from("."), false, false);
        assert_eq!(
            http.find_public_ip().unwrap_err(),
            QrSyncError::Address(AddressError::Invalid),
            "{text}"
        );
    }
}

#[test]
fn getters_give_back_the_configuration() {
    let http = QrSyncHttp::new(None, 4242, Some("f".to_string()), PathBuf::from("d"), true, false);
    assert_eq!(http.port(), 4242);
    assert_eq!(http.filename(), &Some("f".to_string()));
    assert_eq!(http.root_dir(), &PathBuf::from("d"));
}
