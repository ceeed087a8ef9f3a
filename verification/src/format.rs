use vstd::prelude::*;

verus! {

/// The character of a decimal digit.
pub open spec fn digit_char(d: nat) -> char {
    if d == 0 {
        '0'
    } else if d == 1 {
        '1'
    } else if d == 2 {
        '2'
    } else if d == 3 {
        '3'
    } else if d == 4 {
        '4'
    } else if d == 5 {
        '5'
    } else if d == 6 {
        '6'
    } else if d == 7 {
        '7'
    } else if d == 8 {
        '8'
    } else {
        '9'
    }
}

/// The decimal digits of `n`, most significant first, without leading zeros.
pub open spec fn decimal(n: nat) -> Seq<char>
    decreases n,
{
    if n < 10 {
        seq![digit_char(n)]
    } else {
        decimal(n / 10).push(digit_char(n % 10))
    }
}

/// The decimal text of an integer, with a leading minus sign when negative.
pub open spec fn signed_decimal(n: int) -> Seq<char> {
    if n < 0 {
        seq!['-'] + decimal((-n) as nat)
    } else {
        decimal(n as nat)
    }
}

/// The decimal digits of `n`, padded with a leading zero to at least two characters.
pub open spec fn decimal_two(n: nat) -> Seq<char> {
    if n < 10 {
        seq!['0', digit_char(n)]
    } else {
        decimal(n)
    }
}

fn digit_text(d: u64) -> (s: &'static str)
    requires
        d < 10,
    ensures
        s@ == seq![digit_char(d as nat)],
{
    proof {
        reveal_strlit("0");
        reveal_strlit("1");
        reveal_strlit("2");
        reveal_strlit("3");
        reveal_strlit("4");
        reveal_strlit("5");
        reveal_strlit("6");
        reveal_strlit("7");
        reveal_strlit("8");
        reveal_strlit("9");
    }
    if d == 0 {
        "0"
    } else if d == 1 {
        "1"
    } else if d == 2 {
        "2"
    } else if d == 3 {
        "3"
    } else if d == 4 {
        "4"
    } else if d == 5 {
        "5"
    } else if d == 6 {
        "6"
    } else if d == 7 {
        "7"
    } else if d == 8 {
        "8"
    } else {
        "9"
    }
}

/// The decimal text of `n`.
pub fn decimal_text(n: u64) -> (s: String)
    ensures
        s@ == decimal(n as nat),
    decreases n,
{
    if n < 10 {
        String::from_str(digit_text(n))
    } else {
        let mut s = decimal_text(n / 10);
        s.append(digit_text(n % 10));
        s
    }
}

/// The decimal text of `n`, with a leading minus sign when negative.
pub fn signed_decimal_text(n: i64) -> (s: String)
    requires
        n > i64::MIN,
    ensures
        s@ == signed_decimal(n as int),
{
    if n < 0 {
        let mut s = String::from_str("-");
        let digits = decimal_text((-n) as u64);
        s.append(digits.as_str());
        proof {
            reveal_strlit("-");
        }
        s
    } else {
        decimal_text(n as u64)
    }
}

/// The decimal text of `n`, padded with a leading zero to at least two characters.
pub fn decimal_two_text(n: u64) -> (s: String)
    ensures
        s@ == decimal_two(n as nat),
{
    if n < 10 {
        let mut s = String::from_str("0");
        s.append(digit_text(n));
        proof {
            reveal_strlit("0");
        }
        s
    } else {
        decimal_text(n)
    }
}

/// A UTC offset written as `UTC+HH:MM` or `UTC-HH:MM`.
pub open spec fn offset_label(offset_minutes: int) -> Seq<char> {
    let sign = if offset_minutes < 0 {
        "-"@
    } else {
        "+"@
    };
    let absolute = if offset_minutes < 0 {
        -offset_minutes
    } else {
        offset_minutes
    };
    "UTC"@ + sign + decimal_two((absolute / 60) as nat) + ":"@ + decimal_two((absolute % 60) as nat)
}

/// A zone id for a UTC offset, written as `utc-plus-HH-MM` or `utc-minus-HH-MM`.
pub open spec fn offset_zone_label(offset_minutes: int) -> Seq<char> {
    let sign = if offset_minutes < 0 {
        "minus"@
    } else {
        "plus"@
    };
    let absolute = if offset_minutes < 0 {
        -offset_minutes
    } else {
        offset_minutes
    };
    "utc-"@ + sign + "-"@ + decimal_two((absolute / 60) as nat) + "-"@ + decimal_two(
        (absolute % 60) as nat,
    )
}

/// Writes a UTC offset as `UTC+HH:MM` or `UTC-HH:MM`.
pub fn format_offset(offset_minutes: i32) -> (s: String)
    requires
        offset_minutes > i32::MIN,
    ensures
        s@ == offset_label(offset_minutes as int),
{
    let absolute: u64 = if offset_minutes < 0 {
        (-offset_minutes) as u64
    } else {
        offset_minutes as u64
    };
    let mut s = String::from_str("UTC");
    if offset_minutes < 0 {
        s.append("-");
    } else {
        s.append("+");
    }
    let hours = decimal_two_text(absolute / 60);
    s.append(hours.as_str());
    s.append(":");
    let minutes = decimal_two_text(absolute % 60);
    s.append(minutes.as_str());
    s
}

/// Writes the zone id of a UTC offset as `utc-plus-HH-MM` or `utc-minus-HH-MM`.
pub fn offset_zone_id(offset_minutes: i32) -> (s: String)
    requires
        offset_minutes > i32::MIN,
    ensures
        s@ == offset_zone_label(offset_minutes as int),
{
    let absolute: u64 = if offset_minutes < 0 {
        (-offset_minutes) as u64
    } else {
        offset_minutes as u64
    };
    let mut s = String::from_str("utc-");
    if offset_minutes < 0 {
        s.append("minus");
    } else {
        s.append("plus");
    }
    s.append("-");
    let hours = decimal_two_text(absolute / 60);
    s.append(hours.as_str());
    s.append("-");
    let minutes = decimal_two_text(absolute % 60);
    s.append(minutes.as_str());
    s
}

} // verus!
