use vt_core::service::{service_step, ServiceAction, ServiceEvent, WATCHDOG_INTERVAL_SECS};
use vt_core::error::Error;
use vt_core::num::{decimal_string, parse_u32};
use vt_core::setup::{setup_step, SetupAction, SetupEvent};
use vt_core::tools::{
    chvt_command, deallocvt_all_except, deallocvt_targets, openvt_command, openvt_exit_code, tty_path,
    ChvtCommand, OpenvtCommand,
};
use vt_core::vt::free_vt_number;
use vt_core::console::parse_vconsole_conf;

fn args(a: &[&str]) -> Vec<String> {
    a.iter().map(|s| s.to_string()).collect()
}

#[test]
fn parse_u32_like_std() {
    for s in ["0", "7", "007", "+5", "4294967295", "4294967296", "", "+", "-1", "-0", "1 ", " 1", "1a", "++1", "99999999999999999999", "\u{0663}"] {
        assert_eq!(parse_u32(s), s.parse::<u32>().ok(), "input {:?}", s);
    }
}

#[test]
fn decimal_roundtrip() {
    for n in [0u32, 1, 9, 10, 42, 100, 65535, u32::MAX] {
        let s = decimal_string(n);
        assert_eq!(s, format!("{}", n));
        assert_eq!(parse_u32(&s), Some(n));
    }
}

#[test]
fn chvt_commands() {
    assert!(matches!(chvt_command(&args(&["chvt"])), ChvtCommand::Usage));
    assert!(matches!(chvt_command(&args(&["chvt", "1", "2"])), ChvtCommand::Usage));
    assert!(matches!(chvt_command(&args(&["chvt", "x"])), ChvtCommand::InvalidNumber));
    assert!(matches!(chvt_command(&args(&["chvt", "3"])), ChvtCommand::Switch(3)));
}

#[test]
fn deallocvt_explicit_targets() {
    let p = deallocvt_targets(&args(&["deallocvt", "3", "4"]));
    assert_eq!(p.targets, vec![3, 4]);
    assert_eq!(p.invalid, None);
    let p = deallocvt_targets(&args(&["deallocvt", "3", "x", "5"]));
    assert_eq!(p.targets, vec![3]);
    assert_eq!(p.invalid, Some(2));
    let p = deallocvt_targets(&args(&["deallocvt"]));
    assert!(p.targets.is_empty() && p.invalid.is_none());
}

#[test]
fn deallocvt_all_but_current() {
    let v = deallocvt_all_except(5);
    let expected: Vec<u32> = (2..=63).filter(|n| *n != 5).collect();
    assert_eq!(v, expected);
    assert_eq!(deallocvt_all_except(1).len(), 62);
    assert_eq!(deallocvt_all_except(63).last(), Some(&62));
}

#[test]
fn openvt_commands() {
    assert!(matches!(openvt_command(&args(&["openvt"])), OpenvtCommand::Usage));
    assert!(matches!(openvt_command(&args(&["openvt", "sh"])), OpenvtCommand::Run { vt: 0, cmd_start: 1 }));
    assert!(matches!(openvt_command(&args(&["openvt", "-c", "4", "sh"])), OpenvtCommand::Run { vt: 4, cmd_start: 3 }));
    assert!(matches!(openvt_command(&args(&["openvt", "-c", "y", "sh"])), OpenvtCommand::InvalidNumber));
    assert!(matches!(openvt_command(&args(&["openvt", "-c"])), OpenvtCommand::Run { vt: 0, cmd_start: 1 }));
    assert_eq!(tty_path(7), "/dev/tty7");
    assert_eq!(tty_path(12), "/dev/tty12");
}

#[test]
fn openvt_child_exit_code() {
    assert_eq!(openvt_exit_code(0), None);
    assert_eq!(openvt_exit_code(1 << 8), Some(1));
    assert_eq!(openvt_exit_code(127 << 8), Some(127));
    assert_eq!(openvt_exit_code(9), None);
}

#[test]
fn free_vt_query_outcome() {
    assert!(matches!(free_vt_number(-1), Err(Error::VtInUse)));
    assert_eq!(free_vt_number(6).unwrap(), 6);
    assert_eq!(Error::VtInUse.message(), "no free virtual terminal available");
}

#[test]
fn error_messages() {
    assert_eq!(Error::NotConsole.message(), "not a console device");
    assert_eq!(Error::SystemdSocket.message(), "systemd socket activation error");
    assert_eq!(Error::KeymapParse("k").message(), "keymap error: k");
    assert_eq!(Error::ConfigParse("c").message(), "config error: c");
    assert_eq!(Error::InvalidInput("i").message(), "invalid input: i");
    let io = std::io::Error::new(std::io::ErrorKind::Other, "boom");
    assert_eq!(Error::from(io).message(), "I/O error: boom");
}

#[test]
fn io_error_source() {
    let io = std::io::Error::new(std::io::ErrorKind::PermissionDenied, "denied");
    let e = Error::from(io);
    let src = e.io_source().expect("an I/O error has a source");
    assert_eq!(src.kind(), std::io::ErrorKind::PermissionDenied);
    assert_eq!(src.to_string(), "denied");
    assert!(Error::NotConsole.io_source().is_none());
    assert!(Error::FontParse("f").io_source().is_none());
}

fn run(conf: &str, announce: bool, fail_font: bool) -> Vec<String> {
    let cfg = parse_vconsole_conf(conf);
    let mut ev = SetupEvent::Started;
    let mut out = Vec::new();
    loop {
        match setup_step(&cfg, announce, ev) {
            SetupAction::LoadFont(p) => {
                out.push(format!("load {}", p));
                ev = if fail_font { SetupEvent::FontLoadFailed } else { SetupEvent::FontLoaded };
            }
            SetupAction::ApplyFont => {
                out.push("apply".to_string());
                ev = SetupEvent::FontApplied;
            }
            SetupAction::AnnounceFont(m) => {
                out.push(m);
                ev = SetupEvent::FontAnnounced;
            }
            SetupAction::SetUnicode => {
                out.push("unicode".to_string());
                ev = SetupEvent::KeyboardSet;
            }
            SetupAction::AnnounceKeyboard(m) => {
                out.push(m);
                ev = SetupEvent::KeyboardAnnounced;
            }
            SetupAction::Done => return out,
        }
    }
}

#[test]
fn console_setup_runs() {
    assert_eq!(
        run("FONT=ter\nKEYMAP=us\n", true, false),
        vec!["load ter", "apply", "Font loaded: ter", "unicode", "Keyboard set to unicode mode"]
    );
    assert_eq!(run("FONT=ter\nKEYMAP=us\n", false, false), vec!["load ter", "apply", "unicode"]);
    assert_eq!(run("FONT=ter\n", false, true), vec!["load ter"]);
    assert_eq!(run("KEYMAP=us\n", true, false), vec!["unicode", "Keyboard set to unicode mode"]);
    assert!(run("", true, false).is_empty());
}

#[test]
fn vt_manager_service_sequence() {
    assert_eq!(WATCHDOG_INTERVAL_SECS, 30);
    let mut ev = ServiceEvent::Started;
    let mut seen: Vec<String> = Vec::new();
    for _ in 0..9 {
        ev = match service_step(ev) {
            ServiceAction::SendStatus(s) => {
                seen.push(format!("status {}", s));
                ServiceEvent::StatusSent
            }
            ServiceAction::ReportActiveVt => {
                seen.push("report".to_string());
                ServiceEvent::VtReported
            }
            ServiceAction::SetUpConsole => {
                seen.push("setup".to_string());
                ServiceEvent::ConsoleSetUp
            }
            ServiceAction::SendReady => {
                seen.push("ready".to_string());
                ServiceEvent::ReadySent
            }
            ServiceAction::Sleep(secs) => {
                seen.push(format!("sleep {}", secs));
                ServiceEvent::Slept
            }
            ServiceAction::SendWatchdog => {
                seen.push("watchdog".to_string());
                ServiceEvent::WatchdogSent
            }
        };
    }
    assert_eq!(
        seen,
        vec![
            "status Starting Rusted-Linux VT Manager",
            "report",
            "setup",
            "ready",
            "sleep 30",
            "watchdog",
            "sleep 30",
            "watchdog",
            "sleep 30",
        ]
    );
}
