use vstd::prelude::*;

use crate::num::{decimal, decimal_string, parse_u32, spec_parse_u32};
use crate::text::str_is;

verus! {

/// What `chvt` is asked to do.
pub enum ChvtCommand {
    /// Wrong number of arguments: print the usage and fail.
    Usage,
    /// The argument is not a VT number.
    InvalidNumber,
    /// Switch to this virtual terminal.
    Switch(u32),
}

pub open spec fn spec_chvt_command(args: Seq<String>) -> ChvtCommand {
    if args.len() != 2 {
        ChvtCommand::Usage
    } else {
        match spec_parse_u32(args[1]@) {
            None => ChvtCommand::InvalidNumber,
            Some(n) => ChvtCommand::Switch(n),
        }
    }
}

/// Interprets the command line of `chvt <VT number>`.
pub fn chvt_command(args: &[String]) -> (c: ChvtCommand)
    ensures
        c == spec_chvt_command(args@),
{
    if args.len() != 2 {
        return ChvtCommand::Usage;
    }
    match parse_u32(args[1].as_str()) {
        None => ChvtCommand::InvalidNumber,
        Some(n) => ChvtCommand::Switch(n),
    }
}

/// The virtual terminals that `deallocvt VT...` frees, in order, and the
/// index of the first argument that is not a VT number, if any (the tool
/// frees the terminals before it, then reports it and fails).
pub struct DeallocPlan {
    pub targets: Vec<u32>,
    pub invalid: Option<usize>,
}

/// Interprets the arguments of `deallocvt VT...`.
pub fn deallocvt_targets(args: &[String]) -> (p: DeallocPlan)
    ensures
        p.invalid matches Some(k) ==> 1 <= k < args@.len() && spec_parse_u32(args@[k as int]@)
            is None,
        ({
            let end = match p.invalid {
                Some(k) => k as int,
                None => if args@.len() >= 1 {
                    args@.len() as int
                } else {
                    1
                },
            };
            &&& p.targets@.len() == end - 1
            &&& forall|i: int|
                1 <= i < end ==> spec_parse_u32(#[trigger] args@[i]@) == Some(p.targets@[i - 1])
        }),
{
    let mut targets: Vec<u32> = Vec::new();
    let mut i: usize = 1;
    while i < args.len()
        invariant
            1 <= i,
            args@.len() >= 1 ==> i <= args@.len(),
            args@.len() == 0 ==> i == 1,
            targets@.len() == i - 1,
            forall|j: int|
                1 <= j < i ==> spec_parse_u32(#[trigger] args@[j]@) == Some(targets@[j - 1]),
        decreases args@.len() - i,
    {
        match parse_u32(args[i].as_str()) {
            None => {
                return DeallocPlan { targets, invalid: Some(i) };
            },
            Some(n) => {
                targets.push(n);
            },
        }
        i = i + 1;
    }
    DeallocPlan { targets, invalid: None }
}

/// The virtual terminals that `deallocvt` without arguments frees: 2 to 63,
/// in increasing order, all but the active one `current`.
pub fn deallocvt_all_except(current: u32) -> (v: Vec<u32>)
    ensures
        forall|i: int, j: int| 0 <= i < j < v@.len() ==> v@[i] < v@[j],
        forall|n: u32| v@.contains(n) <==> (2 <= n <= 63 && n != current),
{
    let mut v: Vec<u32> = Vec::new();
    let mut n: u32 = 2;
    while n <= 63
        invariant
            2 <= n <= 64,
            forall|i: int, j: int| 0 <= i < j < v@.len() ==> v@[i] < v@[j],
            forall|i: int| 0 <= i < v@.len() ==> 2 <= #[trigger] v@[i] < n && v@[i] != current,
            forall|m: u32| 2 <= m < n && m != current ==> v@.contains(m),
        decreases 64 - n,
    {
        if n != current {
            let ghost old_v = v@;
            v.push(n);
            assert forall|m: u32| 2 <= m < n + 1 && m != current implies v@.contains(m) by {
                if m == n {
                    assert(v@[v@.len() - 1] == m);
                } else {
                    assert(old_v.contains(m));
                    let k = choose|k: int| 0 <= k < old_v.len() && old_v[k] == m;
                    assert(v@[k] == m);
                }
            }
        }
        n = n + 1;
    }
    v
}

/// What `openvt` is asked to do.
pub enum OpenvtCommand {
    /// No command given: print the usage and fail.
    Usage,
    /// The argument of `-c` is not a VT number.
    InvalidNumber,
    /// Run the command that starts at argument `cmd_start` on virtual terminal
    /// `vt`; 0 means the first free one.
    Run { vt: u32, cmd_start: usize },
}

pub open spec fn spec_openvt_command(args: Seq<String>) -> OpenvtCommand {
    if args.len() < 2 {
        OpenvtCommand::Usage
    } else if args[1]@ == "-c"@ && args.len() > 2 {
        match spec_parse_u32(args[2]@) {
            None => OpenvtCommand::InvalidNumber,
            Some(n) => OpenvtCommand::Run { vt: n, cmd_start: 3 },
        }
    } else {
        OpenvtCommand::Run { vt: 0, cmd_start: 1 }
    }
}

/// Interprets the command line of `openvt [-c VT] command [args...]`.
pub fn openvt_command(args: &[String]) -> (c: OpenvtCommand)
    ensures
        c == spec_openvt_command(args@),
{
    if args.len() < 2 {
        return OpenvtCommand::Usage;
    }
    if str_is(args[1].as_str(), "-c") && args.len() > 2 {
        match parse_u32(args[2].as_str()) {
            None => OpenvtCommand::InvalidNumber,
            Some(n) => OpenvtCommand::Run { vt: n, cmd_start: 3 },
        }
    } else {
        OpenvtCommand::Run { vt: 0, cmd_start: 1 }
    }
}

/// The device path of virtual terminal `n`, `/dev/tty<n>`.
pub fn tty_path(n: u32) -> (p: String)
    ensures
        p@ == "/dev/tty"@ + decimal(n as nat),
{
    String::from_str("/dev/tty").concat(decimal_string(n).as_str())
}

/// The exit code in a wait status, bits 8 to 15 (what `WEXITSTATUS` gives).
fn wexitstatus(status: i32) -> (r: i32)
    ensures
        r == (status >> 8i32) & 0xffi32,
{
    (status >> 8i32) & 0xffi32
}

/// The exit code that `openvt` passes on for the wait status of its child:
/// the child's exit code when it is not 0.
pub fn openvt_exit_code(status: i32) -> (r: Option<i32>)
    ensures
        ((status >> 8i32) & 0xffi32) != 0 ==> r == Some((status >> 8i32) & 0xffi32),
        ((status >> 8i32) & 0xffi32) == 0 ==> r is None,
{
    let code = wexitstatus(status);
    if code != 0 {
        Some(code)
    } else {
        None
    }
}

} // verus!
