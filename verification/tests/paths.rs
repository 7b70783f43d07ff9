//! Where the daemon is found.

use jarvis_ui::paths::{
    daemon_endpoint, default_socket_path, jarvis_data_dir, parse_port, socket_path, Endpoint,
    Environment, Platform,
};

fn nothing_set() -> Environment {
    Environment {
        jarvis_data_dir: None,
        jarvis_socket: None,
        xdg_data_home: None,
        home: None,
        local_app_data: None,
        user_profile: None,
    }
}

#[test]
fn each_platform_has_its_data_directory() {
    let none = nothing_set();
    assert_eq!(jarvis_data_dir(Platform::Linux, &none), "/tmp/.local/share/jarvis");
    assert_eq!(
        jarvis_data_dir(Platform::MacOs, &none),
        "/tmp/Library/Application Support/jarvis"
    );
    assert_eq!(
        jarvis_data_dir(Platform::Windows, &none),
        "C:\\Users\\Default\\AppData\\Local\\jarvis"
    );

    let mut env = nothing_set();
    env.home = Some("/home/me".into());
    env.user_profile = Some("C:\\me".into());
    assert_eq!(jarvis_data_dir(Platform::Linux, &env), "/home/me/.local/share/jarvis");
    assert_eq!(
        jarvis_data_dir(Platform::MacOs, &env),
        "/home/me/Library/Application Support/jarvis"
    );
    assert_eq!(jarvis_data_dir(Platform::Windows, &env), "C:\\me\\AppData\\Local\\jarvis");

    env.xdg_data_home = Some("/xdg".into());
    env.local_app_data = Some("C:\\local".into());
    assert_eq!(jarvis_data_dir(Platform::Linux, &env), "/xdg/jarvis");
    assert_eq!(
        jarvis_data_dir(Platform::MacOs, &env),
        "/home/me/Library/Application Support/jarvis"
    );
    assert_eq!(jarvis_data_dir(Platform::Windows, &env), "C:\\local\\jarvis");
}

#[test]
fn the_environment_decides() {
    let mut env = nothing_set();
    env.jarvis_data_dir = Some("/data".into());
    for platform in [Platform::Linux, Platform::MacOs, Platform::Windows] {
        assert_eq!(jarvis_data_dir(platform, &env), "/data");
    }
    assert_eq!(default_socket_path(Platform::Linux, &env), "/data/jarvis.sock");
    assert_eq!(default_socket_path(Platform::MacOs, &env), "/data/jarvis.sock");
    assert_eq!(default_socket_path(Platform::Windows, &env), "/data\\jarvis.sock");
    assert_eq!(socket_path(Platform::Linux, &env), "/data/jarvis.sock");
    env.jarvis_socket = Some("/s".into());
    assert_eq!(socket_path(Platform::Linux, &env), "/s");
    assert_eq!(default_socket_path(Platform::Linux, &env), "/data/jarvis.sock");
}

#[test]
fn windows_goes_by_a_port_file() {
    let mut env = nothing_set();
    env.jarvis_socket = Some("/s".into());
    assert_eq!(daemon_endpoint(Platform::Linux, &env), Endpoint::Socket("/s".into()));
    assert_eq!(daemon_endpoint(Platform::MacOs, &env), Endpoint::Socket("/s".into()));
    assert_eq!(daemon_endpoint(Platform::Windows, &env), Endpoint::PortFile("/s.port".into()));
}

#[test]
fn ports_are_read_as_numbers_are() {
    let texts = [
        "8080", " 8080\n", "\u{a0}1\u{3000}", "+7", "007", "0", "65535", "65536", "99999999999999",
        "", "  ", "+", "-1", "-0", "++1", "8 0", "80a", "0x10", "\u{663}", "1.0",
    ];
    for text in texts {
        assert_eq!(parse_port(text), text.trim().parse::<u16>().ok(), "{text:?}");
    }
    assert_eq!(parse_port(" 8080\n"), Some(8080));
    assert_eq!(parse_port("65536"), None);
}
