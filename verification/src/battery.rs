//! Battery readings: the percentage and charging state, from the kernel's
//! power-supply files or from the Termux battery command's JSON.

use vstd::prelude::*;
use crate::text::{
    chars_eq, find_char, find_non_digit, find_str, find_sub, first_non_digit, index_of,
    lemma_index_of, parse_signed, parse_signed_range, parse_unsigned, parse_unsigned_range,
    range_eq, string_of, to_chars, trim, trim_range, trim_start, trim_start_range,
};

verus! {

#[derive(Clone, Copy, Debug, PartialEq, Eq, Structural)]
pub enum BatteryState {
    Unknown,
    Charging,
    Discharging,
    Full,
}

pub type BatteryReading = (u8, BatteryState);

/// `v` clamped to 0..=100.
pub open spec fn clamp_pct(v: int) -> u8 {
    if v < 0 {
        0
    } else if v > 100 {
        100
    } else {
        v as u8
    }
}

/// The percentage comes from the charge counters: the capacity text is not
/// a number, and both counters were read with a positive full charge.
pub open spec fn percent_from_counters(capacity: Option<&str>, now: Option<i64>, full: Option<i64>) -> bool {
    &&& !(capacity matches Some(c) && parse_signed(trim(c@), i32::MIN as int, i32::MAX as int) is Some)
    &&& now is Some
    &&& full matches Some(f) && f > 0
}

/// Rust's `/` on integers: rounded toward zero.
pub open spec fn div_trunc(a: int, b: int) -> int {
    if a >= 0 {
        a / b
    } else {
        -((-a) / b)
    }
}

/// The charge percentage of a power supply from the contents of its
/// `capacity` file (if read) and its charge or energy counters (if read).
pub fn read_percent(capacity: Option<&str>, now: Option<i64>, full: Option<i64>) -> (r: Option<u8>)
    requires
        percent_from_counters(capacity, now, full) ==> i64::MIN <= now->0 * 100 <= i64::MAX,
    ensures
        r == match capacity {
            Some(c) if parse_signed(trim(c@), i32::MIN as int, i32::MAX as int) is Some => Some(
                clamp_pct(parse_signed(trim(c@), i32::MIN as int, i32::MAX as int)->0),
            ),
            _ => match (now, full) {
                (Some(n), Some(f)) => if f > 0 {
                    Some(clamp_pct(div_trunc(n * 100, f as int)))
                } else {
                    None
                },
                _ => None,
            },
        },
{
    if let Some(c) = capacity {
        let v = to_chars(c);
        let n = v.len();
        let (a, b) = trim_range(&v, 0, n);
        assert(v@.subrange(0, n as int) =~= v@);
        if let Some(x) = parse_signed_range(&v, a, b, i32::MIN as i64, i32::MAX as i64) {
            return Some(
                if x < 0 {
                    0
                } else if x > 100 {
                    100
                } else {
                    x as u8
                },
            );
        }
    }
    match (now, full) {
        (Some(n), Some(f)) => {
            if f > 0 {
                let p = n * 100;
                let q = if p >= 0 {
                    p / f
                } else {
                    -((-(p as i128)) / (f as i128)) as i64
                };
                Some(
                    if q < 0 {
                        0
                    } else if q > 100 {
                        100
                    } else {
                        q as u8
                    },
                )
            } else {
                None
            }
        },
        _ => None,
    }
}

/// The state a power supply's `status` file names; "Not charging" counts
/// as full at 100% and discharging below.
pub open spec fn state_of(status: Seq<char>, pct: u8) -> BatteryState {
    let s = trim(status);
    if s == "Charging"@ {
        BatteryState::Charging
    } else if s == "Discharging"@ {
        BatteryState::Discharging
    } else if s == "Full"@ {
        BatteryState::Full
    } else if s == "Not charging"@ {
        if pct >= 100 {
            BatteryState::Full
        } else {
            BatteryState::Discharging
        }
    } else {
        BatteryState::Unknown
    }
}

/// The state of a power supply from the contents of its `status` file
/// (empty when it could not be read).
pub fn read_state(status: &str, pct: u8) -> (r: BatteryState)
    ensures
        r == state_of(status@, pct),
{
    let v = to_chars(status);
    let n = v.len();
    let (a, b) = trim_range(&v, 0, n);
    assert(v@.subrange(0, n as int) =~= v@);
    if range_eq(&v, a, b, "Charging") {
        BatteryState::Charging
    } else if range_eq(&v, a, b, "Discharging") {
        BatteryState::Discharging
    } else if range_eq(&v, a, b, "Full") {
        BatteryState::Full
    } else if range_eq(&v, a, b, "Not charging") {
        if pct >= 100 {
            BatteryState::Full
        } else {
            BatteryState::Discharging
        }
    } else {
        BatteryState::Unknown
    }
}

/// The state a Termux battery status names.
pub open spec fn termux_state(s: Seq<char>) -> BatteryState {
    if s == "CHARGING"@ || s == "PLUGGED_AC"@ || s == "PLUGGED_USB"@ || s == "PLUGGED_WIRELESS"@ {
        BatteryState::Charging
    } else if s == "DISCHARGING"@ || s == "UNPLUGGED"@ {
        BatteryState::Discharging
    } else if s == "FULL"@ {
        BatteryState::Full
    } else {
        BatteryState::Unknown
    }
}

pub fn termux_status_to_state(s: &str) -> (r: BatteryState)
    ensures
        r == termux_state(s@),
{
    let v = to_chars(s);
    if chars_eq(&v, "CHARGING") || chars_eq(&v, "PLUGGED_AC") || chars_eq(&v, "PLUGGED_USB")
        || chars_eq(&v, "PLUGGED_WIRELESS") {
        BatteryState::Charging
    } else if chars_eq(&v, "DISCHARGING") || chars_eq(&v, "UNPLUGGED") {
        BatteryState::Discharging
    } else if chars_eq(&v, "FULL") {
        BatteryState::Full
    } else {
        BatteryState::Unknown
    }
}


/// In a JSON text, what follows the first `:` after the first occurrence of
/// `key`, with leading whitespace removed.
pub open spec fn value_after(s: Seq<char>, key: Seq<char>) -> Option<Seq<char>> {
    let k = find_sub(s, key);
    if k < 0 {
        None
    } else {
        let a = s.subrange(k, s.len() as int);
        let c = index_of(a, ':');
        if c < 0 {
            None
        } else {
            Some(trim_start(a.subrange(c + 1, a.len() as int)))
        }
    }
}

/// The percentage in the Termux battery JSON: the run of digits after
/// `"percentage":`, read as a `u8` and clamped to 0..=100.
pub open spec fn termux_percent(s: Seq<char>) -> Option<u8> {
    match value_after(s, "\"percentage\""@) {
        Some(rest) => {
            let e = first_non_digit(rest);
            if e < 0 {
                None
            } else {
                match parse_unsigned(rest.take(e), 10, 255) {
                    Some(v) => Some(clamp_pct(v as int)),
                    None => None,
                }
            }
        },
        None => None,
    }
}

/// The state in the Termux battery JSON: the quoted word after `"status":`.
pub open spec fn termux_status(s: Seq<char>) -> Option<BatteryState> {
    match value_after(s, "\"status\""@) {
        Some(rest) => if rest.len() > 0 && rest[0] == '"' {
            let q = rest.drop_first();
            let e = index_of(q, '"');
            if e < 0 {
                None
            } else {
                Some(termux_state(q.take(e)))
            }
        } else {
            None
        },
        None => None,
    }
}

/// The reading the Termux battery JSON gives, when it has both fields.
pub open spec fn termux_reading(s: Seq<char>) -> Option<BatteryReading> {
    match (termux_percent(s), termux_status(s)) {
        (Some(p), Some(st)) => Some((p, st)),
        _ => None,
    }
}

/// Start of the value after `key` and its colon in `v`.
fn value_start(v: &Vec<char>, key: &str) -> (r: Option<usize>)
    ensures
        r is None ==> value_after(v@, key@) is None,
        r matches Some(a) ==> a <= v@.len() && value_after(v@, key@) == Some(
            v@.subrange(a as int, v@.len() as int),
        ),
{
    let n = v.len();
    let k = match find_str(v, key) {
        Some(k) => k,
        None => return None,
    };
    let ghost t = v@.subrange(k as int, n as int);
    let c = match find_char(v, k, n, ':') {
        Some(c) => c,
        None => return None,
    };
    let a = trim_start_range(v, c + 1, n);
    proof {
        assert(t.subrange(c - k + 1, t.len() as int) =~= v@.subrange(c + 1, n as int));
    }
    Some(a)
}

/// Percentage and state from the JSON that the Termux battery command prints
/// (`{"percentage": 87, "status": "DISCHARGING", ...}`).
pub fn parse_termux_json(raw: &str) -> (r: Option<BatteryReading>)
    ensures
        r == termux_reading(raw@),
{
    let v = to_chars(raw);
    let n = v.len();
    let a = match value_start(&v, "\"percentage\"") {
        Some(a) => a,
        None => return None,
    };
    let ghost rest = v@.subrange(a as int, n as int);
    let e = match find_non_digit(&v, a, n) {
        Some(e) => e,
        None => return None,
    };
    assert(rest.take(e - a) =~= v@.subrange(a as int, e as int));
    let pct = match parse_unsigned_range(&v, a, e, 10, 255) {
        Some(x) => if x > 100 {
            100u8
        } else {
            x as u8
        },
        None => return None,
    };
    let b = match value_start(&v, "\"status\"") {
        Some(b) => b,
        None => return None,
    };
    let ghost rest2 = v@.subrange(b as int, n as int);
    if !(b < n && v[b] == '"') {
        return None;
    }
    assert(rest2.drop_first() =~= v@.subrange(b + 1, n as int));
    let e2 = match find_char(&v, b + 1, n, '"') {
        Some(e2) => e2,
        None => return None,
    };
    assert(rest2.drop_first().take(e2 - b - 1) =~= v@.subrange(b + 1, e2 as int));
    let word = string_of(&v, b + 1, e2);
    let st = termux_status_to_state(word.as_str());
    Some((pct, st))
}

} // verus!
