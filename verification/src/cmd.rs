//! The exact text of the commands written to `mspdebug` and of the
//! arguments handed to the debugger, built over a verified decimal
//! formatter.

use vstd::prelude::*;
use vstd::string::StringExecFns;

verus! {

/// The decimal digit for a value below ten.
pub open spec fn dec_digit(d: int) -> char
    recommends
        0 <= d <= 9,
{
    if d == 0 {
        '0'
    } else if d == 1 {
        '1'
    } else if d == 2 {
        '2'
    } else if d == 3 {
        '3'
    } else if d == 4 {
        '4'
    } else if d == 5 {
        '5'
    } else if d == 6 {
        '6'
    } else if d == 7 {
        '7'
    } else if d == 8 {
        '8'
    } else {
        '9'
    }
}

/// The decimal digits of `n`, most significant first, with no sign and
/// no leading zero (a single zero for zero itself).
pub open spec fn dec_str(n: int) -> Seq<char>
    recommends
        n >= 0,
    decreases n,
{
    if n <= 9 {
        seq![dec_digit(n)]
    } else {
        dec_str(n / 10).push(dec_digit(n % 10))
    }
}

/// The one-character string for a decimal digit.
fn digit_str(d: u16) -> (r: &'static str)
    requires
        d <= 9,
    ensures
        r@ == seq![dec_digit(d as int)],
{
    match d {
        0 => {
            proof {
                reveal_strlit("0");
                assert("0"@ =~= seq![dec_digit(0)]);
            }
            "0"
        },
        1 => {
            proof {
                reveal_strlit("1");
                assert("1"@ =~= seq![dec_digit(1)]);
            }
            "1"
        },
        2 => {
            proof {
                reveal_strlit("2");
                assert("2"@ =~= seq![dec_digit(2)]);
            }
            "2"
        },
        3 => {
            proof {
                reveal_strlit("3");
                assert("3"@ =~= seq![dec_digit(3)]);
            }
            "3"
        },
        4 => {
            proof {
                reveal_strlit("4");
                assert("4"@ =~= seq![dec_digit(4)]);
            }
            "4"
        },
        5 => {
            proof {
                reveal_strlit("5");
                assert("5"@ =~= seq![dec_digit(5)]);
            }
            "5"
        },
        6 => {
            proof {
                reveal_strlit("6");
                assert("6"@ =~= seq![dec_digit(6)]);
            }
            "6"
        },
        7 => {
            proof {
                reveal_strlit("7");
                assert("7"@ =~= seq![dec_digit(7)]);
            }
            "7"
        },
        8 => {
            proof {
                reveal_strlit("8");
                assert("8"@ =~= seq![dec_digit(8)]);
            }
            "8"
        },
        _ => {
            proof {
                reveal_strlit("9");
                assert("9"@ =~= seq![dec_digit(9)]);
            }
            "9"
        },
    }
}

/// `n` in decimal.
pub fn u16_dec(n: u16) -> (r: String)
    ensures
        r@ == dec_str(n as int),
    decreases n,
{
    if n <= 9 {
        digit_str(n).to_owned()
    } else {
        let mut s = u16_dec(n / 10);
        s.append(digit_str(n % 10));
        proof {
            assert(s@ =~= dec_str(n as int / 10).push(dec_digit(n as int % 10)));
        }
        s
    }
}

/// The erase command for a configuration-memory range.
pub open spec fn erase_cmd_spec(origin: u16, length: u16, sector: u16) -> Seq<char> {
    ":erase segrange "@ + dec_str(origin as int) + " "@ + dec_str(length as int) + " "@ + dec_str(
        sector as int,
    ) + "\n"@
}

/// Build the erase command written to `mspdebug`.
pub fn erase_cmd(origin: u16, length: u16, sector: u16) -> (r: String)
    ensures
        r@ == erase_cmd_spec(origin, length, sector),
{
    let mut s = ":erase segrange ".to_owned();
    let o = u16_dec(origin);
    s.append(o.as_str());
    s.append(" ");
    let l = u16_dec(length);
    s.append(l.as_str());
    s.append(" ");
    let z = u16_dec(sector);
    s.append(z.as_str());
    s.append("\n");
    proof {
        assert(s@ =~= erase_cmd_spec(origin, length, sector));
    }
    s
}

/// The program command for a file.
pub open spec fn prog_cmd_spec(path: Seq<char>) -> Seq<char> {
    ":prog "@ + path + "\n"@
}

/// Build the program command written to `mspdebug`.
pub fn prog_cmd(path: &str) -> (r: String)
    ensures
        r@ == prog_cmd_spec(path@),
{
    let mut s = ":prog ".to_owned();
    s.append(path);
    s.append("\n");
    proof {
        assert(s@ =~= prog_cmd_spec(path@));
    }
    s
}

/// The command that starts a debug server on a TCP port.
pub open spec fn gdb_cmd_spec(port: u16) -> Seq<char> {
    ":gdb "@ + dec_str(port as int) + "\n"@
}

/// Build the debug-server command written to `mspdebug`.
pub fn gdb_cmd(port: u16) -> (r: String)
    ensures
        r@ == gdb_cmd_spec(port),
{
    let mut s = ":gdb ".to_owned();
    let p = u16_dec(port);
    s.append(p.as_str());
    s.append("\n");
    proof {
        assert(s@ =~= gdb_cmd_spec(port));
    }
    s
}

/// The debugger's connection argument for a local debug server.
pub open spec fn target_remote_spec(port: u16) -> Seq<char> {
    "target remote localhost:"@ + dec_str(port as int)
}

/// Build the debugger's connection argument.
pub fn target_remote_arg(port: u16) -> (r: String)
    ensures
        r@ == target_remote_spec(port),
{
    let mut s = "target remote localhost:".to_owned();
    let p = u16_dec(port);
    s.append(p.as_str());
    proof {
        assert(s@ =~= target_remote_spec(port));
    }
    s
}

/// The debugger's monitor command that erases a configuration-memory
/// range through the debug server.
pub open spec fn monitor_erase_segrange_spec(origin: u16, length: u16, sector: u16) -> Seq<char> {
    "monitor erase segrange "@ + dec_str(origin as int) + " "@ + dec_str(length as int) + " "@
        + dec_str(sector as int)
}

/// Build the debugger's range-erase monitor command.
pub fn monitor_erase_segrange(origin: u16, length: u16, sector: u16) -> (r: String)
    ensures
        r@ == monitor_erase_segrange_spec(origin, length, sector),
{
    let mut s = "monitor erase segrange ".to_owned();
    let o = u16_dec(origin);
    s.append(o.as_str());
    s.append(" ");
    let l = u16_dec(length);
    s.append(l.as_str());
    s.append(" ");
    let z = u16_dec(sector);
    s.append(z.as_str());
    proof {
        assert(s@ =~= monitor_erase_segrange_spec(origin, length, sector));
    }
    s
}

} // verus!
