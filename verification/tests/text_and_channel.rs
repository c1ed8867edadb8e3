use pages_rs::channel::{
    edgeone_socket_path, fallback_ip, init, ipv4_text, stream_seed, stream_socket_path, Channel,
    ChannelSetup, ExportProperty, Platform, SetupAction, SetupEvent, SetupStage, SocketAddress,
};
use pages_rs::text::{join_text, decimal_string, join_path};

#[test]
fn decimal_string_writes_digits() {
    assert_eq!(decimal_string(0), "0");
    assert_eq!(decimal_string(7), "7");
    assert_eq!(decimal_string(10), "10");
    assert_eq!(decimal_string(1725029869123), "1725029869123");
    assert_eq!(decimal_string(u128::MAX), u128::MAX.to_string());
}

#[test]
fn join_path_follows_path_join() {
    assert_eq!(join_path("/tmp", "pages-1"), "/tmp/pages-1");
    assert_eq!(join_path("/tmp/", "pages-1"), "/tmp/pages-1");
    assert_eq!(join_path("", "pages-1"), "pages-1");
    assert_eq!(join_path("project", "/abs/dir"), "/abs/dir");
    assert_eq!(join_path("a", ""), "a/");
    assert_eq!(join_path(".", "Cargo.toml"), "./Cargo.toml");
    for (base, rel) in [("/tmp", "x"), ("a/b/", "c"), ("", "d"), ("e", "/f"), ("g", "")] {
        let expected = std::path::Path::new(base).join(rel).display().to_string();
        assert_eq!(join_path(base, rel), expected);
    }
}

#[test]
fn concat_joins_texts() {
    assert_eq!(join_text("ab", "cd"), "abcd");
    assert_eq!(join_text("", ""), "");
}

#[test]
fn fallback_ip_stays_on_loopback() {
    assert_eq!(fallback_ip(0), 0x7f00_0001);
    assert_eq!(fallback_ip(5), 0x7f00_0006);
    assert_eq!(fallback_ip(0xFF_FFFB), 0x7fff_fffc);
    assert_eq!(fallback_ip(0xFF_FFFC), 0x7f00_0001);
    assert_eq!(fallback_ip(u128::MAX), 0x7f00_0001 + (u128::MAX % 0xFF_FFFC) as u32);
    for n in [0u128, 1, 99, 0xFF_FFFB, 0xFF_FFFC, 123_456_789_000, u128::MAX] {
        let ip = fallback_ip(n);
        assert_eq!(ip >> 24, 127);
        assert!(ip != 0x7f00_0000 && ip != 0x7fff_ffff);
    }
}

#[test]
fn ipv4_text_matches_display() {
    assert_eq!(ipv4_text(0x7f00_0001), "127.0.0.1");
    assert_eq!(ipv4_text(0), "0.0.0.0");
    assert_eq!(ipv4_text(0xffff_ffff), "255.255.255.255");
    assert_eq!(ipv4_text(0x7f12_3456), "127.18.52.86");
    assert_eq!(ipv4_text(0x0a00_00ff), "10.0.0.255");
    assert_eq!(ipv4_text(0xc0a8_0101), "192.168.1.1");
}

#[test]
fn socket_paths_per_platform() {
    assert_eq!(stream_socket_path(Platform::Unix, "/tmp", 42), Some("/tmp/pages-42".to_string()));
    assert_eq!(stream_socket_path(Platform::Unix, "/var/tmp/", 1), Some("/var/tmp/pages-1".to_string()));
    assert_eq!(stream_socket_path(Platform::Windows, "C:\\Temp", 42), Some(r"\\.\pipe\pages-42".to_string()));
    assert_eq!(stream_socket_path(Platform::Other, "/tmp", 42), None);
    assert_eq!(edgeone_socket_path(Platform::Unix, 1700000000000), Some("/tmp/pages-1700000000000".to_string()));
    assert_eq!(edgeone_socket_path(Platform::Windows, 3), Some(r"\\.\pipe\pages-3".to_string()));
    assert_eq!(edgeone_socket_path(Platform::Other, 3), None);
}

#[test]
fn stream_seed_prefers_the_clock() {
    assert_eq!(stream_seed(Some(1000), 5), 1000);
    assert_eq!(stream_seed(None, 5), 5);
}

#[test]
fn setup_uses_the_socket_when_it_binds() {
    let (setup, action) = ChannelSetup::start(Some("/tmp/pages-9".to_string()));
    assert!(matches!(&action, SetupAction::BindIpc(p) if p == "/tmp/pages-9"));
    let (setup, action) = setup.step(SetupEvent::IpcBound(true));
    assert!(matches!(&action, SetupAction::Serve(Channel::IPC(p)) if p == "/tmp/pages-9"));
    assert!(matches!(&setup.stage, SetupStage::Ready(Channel::IPC(_))));
    let (setup, action) = setup.step(SetupEvent::Elapsed(3));
    assert!(matches!(&action, SetupAction::Serve(Channel::IPC(p)) if p == "/tmp/pages-9"));
    assert!(matches!(&setup.stage, SetupStage::Ready(_)));
}

#[test]
fn setup_falls_back_to_loopback_tcp() {
    let (setup, action) = ChannelSetup::start(Some("/tmp/pages-9".to_string()));
    assert!(matches!(action, SetupAction::BindIpc(_)));
    let (setup, action) = setup.step(SetupEvent::IpcBound(false));
    assert!(matches!(action, SetupAction::MeasureElapsed));
    let (setup, action) = setup.step(SetupEvent::Elapsed(5));
    assert!(matches!(action, SetupAction::BindTcp(SocketAddress { ip: 0x7f00_0006, port: 0 })));
    let bound = SocketAddress { ip: 0x7f00_0006, port: 40123 };
    let (setup, action) = setup.step(SetupEvent::TcpBound(bound));
    assert!(matches!(action, SetupAction::Serve(Channel::TCP(a)) if a == bound));
    assert!(matches!(setup.stage, SetupStage::Ready(Channel::TCP(_))));
}

#[test]
fn setup_without_socket_goes_straight_to_tcp() {
    let (setup, action) = ChannelSetup::start(None);
    assert!(matches!(action, SetupAction::MeasureElapsed));
    let (setup, action) = setup.step(SetupEvent::IpcBound(true));
    assert!(matches!(action, SetupAction::MeasureElapsed));
    let (_, action) = setup.step(SetupEvent::Elapsed(0xFF_FFFB));
    assert!(matches!(action, SetupAction::BindTcp(SocketAddress { ip: 0x7fff_fffc, port: 0 })));
}

#[test]
fn init_exports_path_or_host_and_port() {
    let props = init(&Channel::IPC("/tmp/pages-1".to_string()));
    assert_eq!(props.len(), 1);
    assert!(matches!(&props[0], ExportProperty::Text { name, value } if name == "path" && value == "/tmp/pages-1"));
    let props = init(&Channel::TCP(SocketAddress { ip: 0x7f01_0203, port: 8080 }));
    assert_eq!(props.len(), 2);
    assert!(matches!(&props[0], ExportProperty::Text { name, value } if name == "host" && value == "127.1.2.3"));
    assert!(matches!(&props[1], ExportProperty::Number { name, value } if name == "port" && *value == 8080));
}

fn describe(props: &[ExportProperty]) -> Vec<(String, String)> {
    props
        .iter()
        .map(|p| match p {
            ExportProperty::Text { name, value } => (name.clone(), value.clone()),
            ExportProperty::Number { name, value } => (name.clone(), value.to_string()),
        })
        .collect()
}

#[test]
fn init_twice_on_one_channel_gives_the_same_exports() {
    let channel = Channel::TCP(SocketAddress { ip: 0x7f00_0001, port: 4000 });
    assert_eq!(describe(&init(&channel)), describe(&init(&channel)));
    let channel = Channel::IPC("/tmp/pages-7".to_string());
    assert_eq!(describe(&init(&channel)), describe(&init(&channel)));
}

#[test]
fn setup_keeps_the_chosen_channel() {
    let (setup, _) = ChannelSetup::start(Some("/tmp/pages-3".to_string()));
    let (setup, action) = setup.step(SetupEvent::IpcBound(true));
    assert!(matches!(&action, SetupAction::Serve(Channel::IPC(p)) if p == "/tmp/pages-3"));
    let (setup, action) = setup.step(SetupEvent::Elapsed(5));
    assert!(matches!(&action, SetupAction::Serve(Channel::IPC(p)) if p == "/tmp/pages-3"));
    let (setup, action) = setup.step(SetupEvent::TcpBound(SocketAddress { ip: 1, port: 2 }));
    assert!(matches!(&action, SetupAction::Serve(Channel::IPC(p)) if p == "/tmp/pages-3"));
    let (_, action) = setup.step(SetupEvent::IpcBound(false));
    assert!(matches!(&action, SetupAction::Serve(Channel::IPC(p)) if p == "/tmp/pages-3"));
}
