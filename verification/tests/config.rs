use bytes::Bytes;
use kcp::config::{Duration, LISTENER_CONV_TIMEOUT, LISTENER_TASK_LOOP};
use kcp::{KcpConfig, KcpNoDelayConfig};

#[test]
fn nodelay_presets() {
    let d = KcpNoDelayConfig::default();
    assert_eq!((d.nodelay, d.interval, d.resend, d.nc), (false, 100, 0, false));
    let f = KcpNoDelayConfig::fastest();
    assert_eq!((f.nodelay, f.interval, f.resend, f.nc), (true, 10, 2, true));
    let n = KcpNoDelayConfig::normal();
    assert_eq!((n.nodelay, n.interval, n.resend, n.nc), (false, 40, 0, false));
}

#[test]
fn config_defaults() {
    let c = KcpConfig::default();
    assert_eq!(c.mtu, 1400);
    assert_eq!(c.nodelay, KcpNoDelayConfig::normal());
    assert_eq!(c.snd_wnd, 32);
    assert_eq!(c.rcv_wnd, 256);
    assert!(c.stream);
    assert_eq!(&c.session_key[..], b"");
    assert_eq!(c.session_id_len, 16);
    assert_eq!(c.session_expire.as_secs(), 90);
    assert_eq!(c.connect_timeout.as_secs(), 15);
    assert_eq!(c.shutdown_timeout.as_secs(), 10);
    assert_eq!(c.half_close_timeout.as_secs(), 5);
    assert_eq!(LISTENER_TASK_LOOP, 1024);
    assert_eq!(LISTENER_CONV_TIMEOUT, 120);
}

#[test]
fn clone_keeps_the_key() {
    let c = KcpConfig {
        session_key: Bytes::from_static(b"secret"),
        mtu: 1300,
        ..Default::default()
    };
    let d = c.clone();
    assert_eq!(&d.session_key[..], b"secret");
    assert_eq!(d.mtu, 1300);
}

#[test]
fn session_ids_have_the_configured_length_and_differ() {
    let c = KcpConfig { session_id_len: 24, ..Default::default() };
    let a = c.random_session_id();
    let b = c.random_session_id();
    assert_eq!(a.len(), 24);
    assert_eq!(b.len(), 24);
    assert_ne!(a, b);
    let none = KcpConfig { session_id_len: 0, ..Default::default() };
    assert!(none.random_session_id().is_empty());
}

#[test]
fn durations() {
    let d = Duration { secs: 2, nanos: 5 };
    assert_eq!(d.as_secs(), 2);
    assert_eq!(d.as_nanos(), 2_000_000_005);
    assert_eq!(d.as_millis(), 2_000);
    assert_eq!(Duration { secs: 0, nanos: 500_000_000 }.as_millis(), 500);
    assert_eq!(Duration::from_secs(3), Duration { secs: 3, nanos: 0 });
}
