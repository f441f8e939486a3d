use vstd::prelude::*;

use crate::error::{Error, Result};
use crate::num::{parse_u32, spec_parse_u32};

verus! {

/// A datagram for the service manager: the socket address to send it to
/// and its text.
pub struct Notification {
    pub path: String,
    pub payload: String,
}

/// The socket address that the value of `NOTIFY_SOCKET` names: a leading
/// `'@'` stands for the abstract namespace, that is a leading NUL.
pub open spec fn spec_notify_address(sock: Seq<char>) -> Seq<char> {
    if sock.len() > 0 && sock[0] == '@' {
        seq!['\0'] + sock.skip(1)
    } else {
        sock
    }
}

/// The notification that sending `state` amounts to, given the value of
/// `NOTIFY_SOCKET` (none when the variable is unset: nothing is sent).
pub open spec fn notification_is(n: Option<Notification>, state: Seq<char>, notify_socket: Option<Seq<char>>) -> bool {
    match notify_socket {
        None => n is None,
        Some(sock) => n matches Some(m) && m.path@ == spec_notify_address(sock) && m.payload@
            == state,
    }
}

pub open spec fn opt_str_view(o: Option<&str>) -> Option<Seq<char>> {
    match o {
        Some(s) => Some(s@),
        None => None,
    }
}

/// The socket address for the value `sock` of `NOTIFY_SOCKET`.
pub fn notify_address(sock: &str) -> (p: String)
    ensures
        p@ == spec_notify_address(sock@),
{
    let n = sock.unicode_len();
    if n > 0 && sock.get_char(0) == '@' {
        proof {
            reveal_strlit("\0");
        }
        let rest = sock.substring_char(1, n);
        let p = String::from_str("\0").concat(rest);
        assert(p@ =~= seq!['\0'] + sock@.skip(1));
        p
    } else {
        String::from_str(sock)
    }
}

/// The notification that tells the service manager `state`, or none when
/// `NOTIFY_SOCKET` is unset.
pub fn sd_notify(state: &str, notify_socket: Option<&str>) -> (n: Option<Notification>)
    ensures
        notification_is(n, state@, opt_str_view(notify_socket)),
{
    match notify_socket {
        None => None,
        Some(sock) => Some(Notification { path: notify_address(sock), payload: String::from_str(state) }),
    }
}

/// The readiness notification.
pub fn sd_notify_ready(notify_socket: Option<&str>) -> (n: Option<Notification>)
    ensures
        notification_is(
            n,
            "READY=1\nSTATUS=Rusted-Linux VT Manager ready\nMAINPID=1"@,
            opt_str_view(notify_socket),
        ),
{
    sd_notify("READY=1\nSTATUS=Rusted-Linux VT Manager ready\nMAINPID=1", notify_socket)
}

/// The notification of the status line `status`.
pub fn sd_notify_status(status: &str, notify_socket: Option<&str>) -> (n: Option<Notification>)
    ensures
        notification_is(n, "STATUS="@ + status@ + "\n"@, opt_str_view(notify_socket)),
{
    let state = String::from_str("STATUS=").concat(status).concat("\n");
    sd_notify(state.as_str(), notify_socket)
}

/// The watchdog keep-alive notification.
pub fn sd_notify_watchdog(notify_socket: Option<&str>) -> (n: Option<Notification>)
    ensures
        notification_is(n, "WATCHDOG=1"@, opt_str_view(notify_socket)),
{
    sd_notify("WATCHDOG=1", notify_socket)
}

/// The notification that the service is stopping.
pub fn sd_notify_stopping(notify_socket: Option<&str>) -> (n: Option<Notification>)
    ensures
        notification_is(n, "STOPPING=1\nSTATUS=Shutting down"@, opt_str_view(notify_socket)),
{
    sd_notify("STOPPING=1\nSTATUS=Shutting down", notify_socket)
}

/// What the socket-activation variables say: `Ok(None)` when the sockets are
/// not meant for the process `own_pid` (a variable unset, or another pid),
/// `Ok(Some(n))` when `n` sockets were passed to it, and
/// `Err(SystemdSocket)` when a variable is set but not a number.
pub open spec fn spec_listen_fds(
    listen_pid: Option<Seq<char>>,
    listen_fds: Option<Seq<char>>,
    own_pid: u32,
) -> core::result::Result<Option<u32>, ()> {
    match listen_pid {
        None => Ok(None),
        Some(p) => match spec_parse_u32(p) {
            None => Err(()),
            Some(pid) => match listen_fds {
                None => Ok(None),
                Some(f) => match spec_parse_u32(f) {
                    None => Err(()),
                    Some(n) => if pid != own_pid {
                        Ok(None)
                    } else {
                        Ok(Some(n))
                    },
                },
            },
        },
    }
}

/// Interprets the values of `LISTEN_PID` and `LISTEN_FDS` for the process
/// `own_pid`; `Ok(Some(n))` means the `n` passed sockets are its own (and
/// the variables may then be cleared).
pub fn sd_listen_fds(listen_pid: Option<&str>, listen_fds: Option<&str>, own_pid: u32) -> (r: Result<Option<u32>>)
    ensures
        match spec_listen_fds(opt_str_view(listen_pid), opt_str_view(listen_fds), own_pid) {
            Ok(v) => r == Ok::<Option<u32>, Error>(v),
            Err(_) => r matches Err(Error::SystemdSocket),
        },
{
    let pid = match listen_pid {
        None => return Ok(None),
        Some(p) => match parse_u32(p) {
            None => return Err(Error::SystemdSocket),
            Some(v) => v,
        },
    };
    let n = match listen_fds {
        None => return Ok(None),
        Some(f) => match parse_u32(f) {
            None => return Err(Error::SystemdSocket),
            Some(v) => v,
        },
    };
    if pid != own_pid {
        return Ok(None);
    }
    Ok(Some(n))
}

/// The passed sockets are claimed only by the process whose pid
/// `LISTEN_PID` holds: a result `Ok(Some(n))` means that both variables are
/// numbers, `LISTEN_PID` is `own_pid` and `LISTEN_FDS` is `n`; when
/// `LISTEN_PID` is the number of any other process, lower or higher, and
/// `LISTEN_FDS` is a number, the result is `Ok(None)`.
pub proof fn lemma_listen_fds_own_pid(
    listen_pid: Option<Seq<char>>,
    listen_fds: Option<Seq<char>>,
    own_pid: u32,
)
    ensures
        spec_listen_fds(listen_pid, listen_fds, own_pid) matches Ok(Some(n)) ==> {
            &&& listen_pid matches Some(p) && spec_parse_u32(p) == Some(own_pid)
            &&& listen_fds matches Some(f) && spec_parse_u32(f) == Some(n)
        },
        (listen_pid matches Some(p) && spec_parse_u32(p) is Some && spec_parse_u32(p) != Some(own_pid))
            && (listen_fds matches Some(f) && spec_parse_u32(f) is Some)
            ==> spec_listen_fds(listen_pid, listen_fds, own_pid) == Ok::<Option<u32>, ()>(None),
{
}

/// Which of the two variables decides: with `LISTEN_PID` unset there are no
/// sockets, whatever `LISTEN_FDS` holds; a `LISTEN_PID` that is not a number
/// is an error; with a numeric `LISTEN_PID`, an unset `LISTEN_FDS` means no
/// sockets and a `LISTEN_FDS` that is not a number is an error, whichever
/// process `LISTEN_PID` names.
pub proof fn lemma_listen_fds_variables(
    listen_pid: Option<Seq<char>>,
    listen_fds: Option<Seq<char>>,
    own_pid: u32,
)
    ensures
        listen_pid is None ==> spec_listen_fds(listen_pid, listen_fds, own_pid) == Ok::<Option<u32>, ()>(None),
        (listen_pid matches Some(p) && spec_parse_u32(p) is None)
            ==> spec_listen_fds(listen_pid, listen_fds, own_pid) is Err,
        (listen_pid matches Some(p) && spec_parse_u32(p) is Some) && listen_fds is None
            ==> spec_listen_fds(listen_pid, listen_fds, own_pid) == Ok::<Option<u32>, ()>(None),
        (listen_pid matches Some(p) && spec_parse_u32(p) is Some)
            && (listen_fds matches Some(f) && spec_parse_u32(f) is None)
            ==> spec_listen_fds(listen_pid, listen_fds, own_pid) is Err,
{
}

} // verus!
