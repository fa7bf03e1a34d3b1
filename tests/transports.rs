use colormusic::color::UNIT;
use colormusic::commands::create_color_command;
use colormusic::config::Settings;
use colormusic::devices::{choose_device, DeviceChoice};
use colormusic::dispatch::{
    apply_opacity, contains_http, encode_binary, encode_text, encode_text_with_interval,
    output_channels, push_decimal, tcp_response, UdpPacer, BACKOFF_MS, FAST_MS,
};
use colormusic::supervisor::{supervise, Phase, SupervisorAction, SupervisorEvent};
use colormusic::timer::Timer;

#[test]
fn ble_frame() {
    assert_eq!(
        create_color_command(255, 0, 128),
        [0x7E, 0x07, 0x05, 0x03, 255, 0, 128, 0x10, 0xEF]
    );
}

#[test]
fn text_payloads() {
    assert_eq!(encode_text(255, 0, 128), b"255 0 128\n".to_vec());
    assert_eq!(encode_text(7, 42, 100), b"7 42 100\n".to_vec());
    assert_eq!(encode_text_with_interval(1, 2, 3, 260), b"1 2 3 260\n".to_vec());
    assert_eq!(encode_text_with_interval(1, 2, 3, 65535), b"1 2 3 65535\n".to_vec());
    let mut v = Vec::new();
    push_decimal(&mut v, 1234567890);
    assert_eq!(v, b"1234567890".to_vec());
}

#[test]
fn binary_payload() {
    assert_eq!(encode_binary(10, 20, 30, 260), [10, 20, 30, 4, 1]);
    assert_eq!(encode_binary(0, 0, 0, 0xABCD), [0, 0, 0, 0xCD, 0xAB]);
}

#[test]
fn tcp_http_request_gets_status_line() {
    let req = b"GET / HTTP/1.1\r\nHost: x\r\n\r\n";
    let resp = tcp_response(req, 1, 2, 3);
    let text = String::from_utf8(resp).unwrap();
    assert!(text.starts_with("HTTP/1.1 200 OK\r\n"));
    assert!(text.contains("Content-Type: text/plain\r\n"));
    assert!(text.contains("Access-Control-Allow-Origin: *\r\n"));
    assert!(text.ends_with("\r\n\r\n1 2 3"));
}

#[test]
fn tcp_plain_request_gets_bare_line() {
    assert_eq!(tcp_response(b"color?", 255, 0, 128), b"255 0 128\n".to_vec());
    assert_eq!(tcp_response(b"", 1, 1, 1), b"1 1 1\n".to_vec());
    assert_eq!(tcp_response(b"HTT", 1, 1, 1), b"1 1 1\n".to_vec());
    assert_eq!(tcp_response(b"http", 1, 1, 1), b"1 1 1\n".to_vec());
}

#[test]
fn http_detection() {
    assert!(contains_http(b"HTTP"));
    assert!(contains_http(b"xxHTTPyy"));
    assert!(contains_http(b"abcHTTP"));
    assert!(!contains_http(b"HTT P"));
    assert!(!contains_http(b""));
}

#[test]
fn udp_backoff_scenario() {
    let mut p = UdpPacer::new();
    assert_eq!(p.after_send(true), FAST_MS);
    assert_eq!(p.after_send(false), BACKOFF_MS);
    assert_eq!(p.after_send(false), BACKOFF_MS);
    assert_eq!(p.after_send(false), BACKOFF_MS);
    assert_eq!(p.consecutive_failures, 3);
    assert_eq!(p.after_send(true), FAST_MS);
    assert_eq!(p.consecutive_failures, 0);
    assert_eq!(FAST_MS, 20);
    assert_eq!(BACKOFF_MS, 1000);
}

#[test]
fn opacity_rounds_half_up() {
    assert_eq!(apply_opacity(255, UNIT), 255);
    assert_eq!(apply_opacity(255, 0), 0);
    assert_eq!(apply_opacity(255, UNIT / 2), 128); // 127.5
    assert_eq!(apply_opacity(100, 200_000), 20);
    assert_eq!(apply_opacity(3, 500_000), 2); // 1.5
}

#[test]
fn output_correction_after_opacity() {
    assert_eq!(output_channels(250, 230, 10, UNIT), (250, 170, 10));
    assert_eq!(output_channels(250, 230, 20, UNIT), (250, 230, 20));
    // dimmed below the thresholds: no correction
    assert_eq!(output_channels(250, 230, 10, UNIT / 2), (125, 115, 5));
}

#[test]
fn device_choice() {
    let avail = vec!["Speakers".to_string(), "Headphones".to_string(), "HDMI".to_string()];
    assert_eq!(choose_device(&None, &avail), DeviceChoice::SystemDefault);
    let want = Some(vec!["HDMI".to_string(), "default".to_string()]);
    assert_eq!(choose_device(&want, &avail), DeviceChoice::SystemDefault);
    let want = Some(vec!["HDMI".to_string(), "Headphones".to_string()]);
    assert_eq!(choose_device(&want, &avail), DeviceChoice::Listed(1));
    let want = Some(vec!["USB".to_string()]);
    assert_eq!(choose_device(&want, &avail), DeviceChoice::NotFound);
    assert_eq!(choose_device(&Some(Vec::new()), &avail), DeviceChoice::NotFound);
}

#[test]
fn supervisor_cycle() {
    let (p, a) = supervise(Phase::Searching, SupervisorEvent::NoDevice);
    assert_eq!((p, a), (Phase::Searching, SupervisorAction::Wait(5000)));
    let (p, a) = supervise(p, SupervisorEvent::StreamFailed);
    assert_eq!((p, a), (Phase::Searching, SupervisorAction::Wait(5000)));
    let (p, a) = supervise(p, SupervisorEvent::StreamStarted);
    assert_eq!((p, a), (Phase::Streaming, SupervisorAction::Wait(500)));
    let (p, a) = supervise(p, SupervisorEvent::StillRunning);
    assert_eq!((p, a), (Phase::Streaming, SupervisorAction::Wait(500)));
    let (p, a) = supervise(p, SupervisorEvent::RestartRequested);
    assert_eq!((p, a), (Phase::Searching, SupervisorAction::TearDown));
}

#[test]
fn settings_defaults() {
    let mut s = Settings {
        devices: None,
        tcp: None,
        tcp_port: None,
        udp: None,
        udp_address: None,
        udp_port: None,
        color_change_interval: None,
    };
    assert_eq!(s.interval_ms(), 260);
    assert!(s.udp_enabled());
    assert!(!s.tcp_enabled());
    s.color_change_interval = Some(100);
    s.tcp = Some(true);
    assert_eq!(s.interval_ms(), 100);
    assert!(s.tcp_enabled());
}

#[test]
fn timer_measures_forward() {
    let mut t = Timer::new();
    let a = t.elapsed();
    let b = t.elapsed();
    assert!(b >= a);
    t.update();
    assert!(t.elapsed() <= b + std::time::Duration::from_secs(60));
}
