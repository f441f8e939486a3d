use vt_core::error::Error;
use vt_core::notify::{
    notify_address, sd_listen_fds, sd_notify, sd_notify_ready, sd_notify_status, sd_notify_stopping,
    sd_notify_watchdog,
};

#[test]
fn no_socket_no_notification() {
    assert!(sd_notify("X=1", None).is_none());
    assert!(sd_notify_ready(None).is_none());
    assert!(sd_notify_status("hi", None).is_none());
    assert!(sd_notify_watchdog(None).is_none());
    assert!(sd_notify_stopping(None).is_none());
}

#[test]
fn notification_payloads() {
    let n = sd_notify_ready(Some("/run/systemd/notify")).unwrap();
    assert_eq!(n.path, "/run/systemd/notify");
    assert_eq!(n.payload, "READY=1\nSTATUS=Rusted-Linux VT Manager ready\nMAINPID=1");
    let n = sd_notify_status("Font loaded: x", Some("/s")).unwrap();
    assert_eq!(n.payload, "STATUS=Font loaded: x\n");
    assert_eq!(sd_notify_watchdog(Some("/s")).unwrap().payload, "WATCHDOG=1");
    assert_eq!(sd_notify_stopping(Some("/s")).unwrap().payload, "STOPPING=1\nSTATUS=Shutting down");
}

#[test]
fn abstract_socket_address() {
    assert_eq!(notify_address("@/org/freedesktop/systemd1/notify"), "\0/org/freedesktop/systemd1/notify");
    assert_eq!(notify_address("@"), "\0");
    assert_eq!(notify_address(""), "");
    assert_eq!(notify_address("/a@b"), "/a@b");
    assert_eq!(sd_notify("S", Some("@x")).unwrap().path, "\0x");
}

#[test]
fn listen_fds_interpretation() {
    assert_eq!(sd_listen_fds(None, Some("3"), 10).unwrap(), None);
    assert_eq!(sd_listen_fds(Some("10"), None, 10).unwrap(), None);
    assert_eq!(sd_listen_fds(Some("10"), Some("3"), 10).unwrap(), Some(3));
    assert_eq!(sd_listen_fds(Some("11"), Some("3"), 10).unwrap(), None);
    assert_eq!(sd_listen_fds(Some("+10"), Some("0"), 10).unwrap(), Some(0));
    assert!(matches!(sd_listen_fds(Some("x"), None, 10), Err(Error::SystemdSocket)));
    assert!(matches!(sd_listen_fds(Some("10"), Some("-1"), 10), Err(Error::SystemdSocket)));
    assert!(matches!(sd_listen_fds(Some("11"), Some(""), 10), Err(Error::SystemdSocket)));
}
