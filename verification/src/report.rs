//! The result reporter: turns collected [`HostStatus`] values into the
//! printed lines `name, is_primary, timeline_id, replica_attached`, one per
//! successfully probed host, in probe order. Writing the lines out is the
//! caller's business; this module only builds them.

use vstd::prelude::*;

use crate::status::{HostStatus, HostStatusV};

verus! {

/// The character printed for one decimal digit.
pub open spec fn digit_char(d: nat) -> char {
    if d == 0 {
        '0'
    } else if d == 1 {
        '1'
    } else if d == 2 {
        '2'
    } else if d == 3 {
        '3'
    } else if d == 4 {
        '4'
    } else if d == 5 {
        '5'
    } else if d == 6 {
        '6'
    } else if d == 7 {
        '7'
    } else if d == 8 {
        '8'
    } else {
        '9'
    }
}

/// Decimal digits of a non-negative integer, most significant first, with no
/// leading zeros (a single `'0'` for zero).
pub open spec fn dec_chars(n: nat) -> Seq<char>
    decreases n,
{
    if n < 10 {
        seq![digit_char(n)]
    } else {
        dec_chars(n / 10).push(digit_char(n % 10))
    }
}

/// Decimal rendering of a signed integer: a leading `'-'` for negative
/// values, then the digits of the magnitude.
pub open spec fn int_chars(n: int) -> Seq<char> {
    if n < 0 {
        seq!['-'] + dec_chars((-n) as nat)
    } else {
        dec_chars(n as nat)
    }
}

/// Rendering of a boolean flag, as `true` or `false`.
pub open spec fn bool_chars(b: bool) -> Seq<char> {
    if b {
        seq!['t', 'r', 'u', 'e']
    } else {
        seq!['f', 'a', 'l', 's', 'e']
    }
}

/// The report line for one probed host: its name, primary flag, timeline
/// identifier and replica-attached flag, separated by `", "`.
pub open spec fn row_chars(h: HostStatusV) -> Seq<char> {
    h.name + seq![',', ' '] + bool_chars(h.is_primary) + seq![',', ' '] + int_chars(h.timeline_id)
        + seq![',', ' '] + bool_chars(h.replica_attached)
}

/// The single character naming one decimal digit.
fn digit_str(d: u32) -> (s: &'static str)
    requires
        d < 10,
    ensures
        s@ =~= seq![digit_char(d as nat)],
{
    if d == 0 {
        proof {
            reveal_strlit("0");
        }
        "0"
    } else if d == 1 {
        proof {
            reveal_strlit("1");
        }
        "1"
    } else if d == 2 {
        proof {
            reveal_strlit("2");
        }
        "2"
    } else if d == 3 {
        proof {
            reveal_strlit("3");
        }
        "3"
    } else if d == 4 {
        proof {
            reveal_strlit("4");
        }
        "4"
    } else if d == 5 {
        proof {
            reveal_strlit("5");
        }
        "5"
    } else if d == 6 {
        proof {
            reveal_strlit("6");
        }
        "6"
    } else if d == 7 {
        proof {
            reveal_strlit("7");
        }
        "7"
    } else if d == 8 {
        proof {
            reveal_strlit("8");
        }
        "8"
    } else {
        proof {
            reveal_strlit("9");
        }
        "9"
    }
}

/// Decimal rendering of an unsigned integer.
pub fn u32_dec_string(n: u32) -> (s: String)
    ensures
        s@ == dec_chars(n as nat),
    decreases n,
{
    if n < 10 {
        let s = String::from_str(digit_str(n));
        proof {
            assert(s@ =~= dec_chars(n as nat));
        }
        s
    } else {
        let mut s = u32_dec_string(n / 10);
        s.append(digit_str(n % 10));
        proof {
            assert(s@ =~= dec_chars(n as nat));
        }
        s
    }
}

/// Decimal rendering of a signed integer.
pub fn i32_dec_string(n: i32) -> (s: String)
    ensures
        s@ == int_chars(n as int),
{
    if n >= 0 {
        let s = u32_dec_string(n as u32);
        s
    } else {
        let magnitude: u32 = (-(n as i64)) as u32;
        assert(magnitude as nat == (-(n as int)) as nat);
        let mut s = String::from_str("-");
        proof {
            reveal_strlit("-");
            assert(s@ =~= seq!['-']);
        }
        let digits = u32_dec_string(magnitude);
        s.append(digits.as_str());
        proof {
            assert(s@ =~= int_chars(n as int));
        }
        s
    }
}

/// `true` or `false`, as printed in a report row.
pub fn bool_string(b: bool) -> (s: &'static str)
    ensures
        s@ == bool_chars(b),
{
    if b {
        proof {
            reveal_strlit("true");
            assert("true"@ =~= seq!['t', 'r', 'u', 'e']);
        }
        "true"
    } else {
        proof {
            reveal_strlit("false");
            assert("false"@ =~= seq!['f', 'a', 'l', 's', 'e']);
        }
        "false"
    }
}

/// Builds the report line for one probed host.
pub fn format_row(h: &HostStatus) -> (s: String)
    ensures
        s@ == row_chars(h@),
{
    proof {
        reveal_strlit(", ");
        assert(", "@ =~= seq![',', ' ']);
    }
    let mut s = String::from_str(h.name.as_str());
    s.append(", ");
    s.append(bool_string(h.is_primary));
    s.append(", ");
    let timeline = i32_dec_string(h.timeline_id);
    s.append(timeline.as_str());
    s.append(", ");
    s.append(bool_string(h.replica_attached));
    proof {
        assert(s@ =~= row_chars(h@));
    }
    s
}

/// Builds the whole report: one line per collected status, in the order the
/// statuses were collected.
pub fn render_report(rows: &Vec<HostStatus>) -> (lines: Vec<String>)
    ensures
        lines@.len() == rows@.len(),
        forall|i: int| 0 <= i < rows@.len() ==> lines@[i]@ == row_chars(rows@[i]@),
{
    let mut lines: Vec<String> = Vec::new();
    let mut idx: usize = 0;
    while idx < rows.len()
        invariant
            idx <= rows@.len(),
            lines@.len() == idx,
            forall|i: int| 0 <= i < idx ==> lines@[i]@ == row_chars(rows@[i]@),
        decreases rows@.len() - idx,
    {
        lines.push(format_row(&rows[idx]));
        idx = idx + 1;
    }
    lines
}

} // verus!
