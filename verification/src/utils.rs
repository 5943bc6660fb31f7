use vstd::prelude::*;

verus! {

pub const SIZE_1KB: u64 = 1024;

pub const SIZE_1MB: u64 = 1024 * SIZE_1KB;

pub const SIZE_1GB: u64 = 1024 * SIZE_1MB;

/// The decimal digit character for one digit value.
pub open spec fn digit_char(d: int) -> char {
    if d == 0 {
        '0'
    } else if d == 1 {
        '1'
    } else if d == 2 {
        '2'
    } else if d == 3 {
        '3'
    } else if d == 4 {
        '4'
    } else if d == 5 {
        '5'
    } else if d == 6 {
        '6'
    } else if d == 7 {
        '7'
    } else if d == 8 {
        '8'
    } else {
        '9'
    }
}

/// The decimal digits of a non-negative number, most significant first.
pub open spec fn spec_dec(n: int) -> Seq<char>
    recommends
        n >= 0,
    decreases n,
{
    if n < 10 {
        seq![digit_char(n)]
    } else {
        spec_dec(n / 10).push(digit_char(n % 10))
    }
}

/// A number zero-padded to at least two digits.
pub open spec fn spec_pad2(n: int) -> Seq<char>
    recommends
        n >= 0,
{
    if n < 10 {
        "0"@ + spec_dec(n)
    } else {
        spec_dec(n)
    }
}

fn digit_str(d: u64) -> (r: &'static str)
    requires
        d < 10,
    ensures
        r@ == seq![digit_char(d as int)],
{
    let r = if d == 0 {
        "0"
    } else if d == 1 {
        "1"
    } else if d == 2 {
        "2"
    } else if d == 3 {
        "3"
    } else if d == 4 {
        "4"
    } else if d == 5 {
        "5"
    } else if d == 6 {
        "6"
    } else if d == 7 {
        "7"
    } else if d == 8 {
        "8"
    } else {
        "9"
    };
    proof {
        reveal_strlit("0");
        reveal_strlit("1");
        reveal_strlit("2");
        reveal_strlit("3");
        reveal_strlit("4");
        reveal_strlit("5");
        reveal_strlit("6");
        reveal_strlit("7");
        reveal_strlit("8");
        reveal_strlit("9");
        assert(r@ =~= seq![digit_char(d as int)]);
    }
    r
}

/// Renders a number in decimal.
pub fn u64_to_dec(n: u64) -> (r: String)
    ensures
        r@ == spec_dec(n as int),
    decreases n,
{
    if n < 10 {
        String::from_str(digit_str(n))
    } else {
        let mut r = u64_to_dec(n / 10);
        r.append(digit_str(n % 10));
        proof {
            assert(r@ =~= spec_dec(n as int));
        }
        r
    }
}

fn u64_to_pad2(n: u64) -> (r: String)
    ensures
        r@ == spec_pad2(n as int),
{
    if n < 10 {
        let mut r = String::from_str("0");
        r.append(digit_str(n));
        proof {
            assert(r@ =~= spec_pad2(n as int));
        }
        r
    } else {
        u64_to_dec(n)
    }
}

/// A byte count scaled by a unit, with two decimal places, rounded half up.
pub open spec fn spec_scaled(size: int, unit: int) -> Seq<char>
    recommends
        size >= 0,
        unit >= 2,
{
    let value = (size * 100 + unit / 2) / unit;
    spec_dec(value / 100) + "."@ + spec_pad2(value % 100)
}

/// The display form of a byte count: plain bytes below twice a kilobyte,
/// then kilobytes, megabytes and gigabytes, each band starting at twice its
/// unit, with two decimal places above the byte scale.
pub open spec fn spec_format_file_size(size: int) -> Seq<char> {
    if size >= 2 * SIZE_1GB {
        spec_scaled(size, SIZE_1GB as int) + " GB"@
    } else if size >= 2 * SIZE_1MB {
        spec_scaled(size, SIZE_1MB as int) + " MB"@
    } else if size >= 2 * SIZE_1KB {
        spec_scaled(size, SIZE_1KB as int) + " KB"@
    } else {
        spec_dec(size) + " bytes"@
    }
}

fn scaled_value(size: u64, unit: u64) -> (r: u64)
    requires
        SIZE_1KB <= unit <= SIZE_1GB,
    ensures
        r == (size * 100 + unit / 2) / unit as int,
{
    let wide: u128 = (size as u128 * 100 + (unit / 2) as u128) / unit as u128;
    proof {
        let top = size as int * 100 + unit as int / 2;
        vstd::arithmetic::div_mod::lemma_div_is_ordered_by_denominator(
            top,
            SIZE_1KB as int,
            unit as int,
        );
        assert(top / (SIZE_1KB as int) <= u64::MAX);
        assert(wide <= u64::MAX);
    }
    wide as u64
}

fn format_scaled(size: u64, unit: u64) -> (r: String)
    requires
        SIZE_1KB <= unit <= SIZE_1GB,
    ensures
        r@ == spec_scaled(size as int, unit as int),
{
    let value = scaled_value(size, unit);
    let mut r = u64_to_dec(value / 100);
    r.append(".");
    let frac = u64_to_pad2(value % 100);
    r.append(frac.as_str());
    proof {
        assert(r@ =~= spec_scaled(size as int, unit as int));
    }
    r
}

/// Maps a byte count to its unit-scaled display string.
pub fn format_file_size(size: u64) -> (r: String)
    ensures
        r@ == spec_format_file_size(size as int),
{
    if size >= SIZE_1GB * 2 {
        let mut r = format_scaled(size, SIZE_1GB);
        r.append(" GB");
        proof {
            assert(r@ =~= spec_format_file_size(size as int));
        }
        r
    } else if size >= SIZE_1MB * 2 {
        let mut r = format_scaled(size, SIZE_1MB);
        r.append(" MB");
        proof {
            assert(r@ =~= spec_format_file_size(size as int));
        }
        r
    } else if size >= SIZE_1KB * 2 {
        let mut r = format_scaled(size, SIZE_1KB);
        r.append(" KB");
        proof {
            assert(r@ =~= spec_format_file_size(size as int));
        }
        r
    } else {
        let mut r = u64_to_dec(size);
        r.append(" bytes");
        proof {
            assert(r@ =~= spec_format_file_size(size as int));
        }
        r
    }
}

/// The display form of an elapsed time of `secs` seconds and `subsec_millis`
/// milliseconds: minutes, seconds and centiseconds below one hour, else
/// hours, minutes and seconds, each zero-padded to two digits.
pub open spec fn spec_format_duration(secs: int, subsec_millis: int) -> Seq<char> {
    if secs < 3600 {
        spec_pad2(secs / 60) + ":"@ + spec_pad2(secs % 60) + "."@ + spec_pad2(subsec_millis / 10)
    } else {
        spec_pad2(secs / 3600) + ":"@ + spec_pad2((secs / 60) % 60) + ":"@ + spec_pad2(secs % 60)
    }
}

/// Maps an elapsed time to its display string.
pub fn format_duration(secs: u64, subsec_millis: u32) -> (r: String)
    ensures
        r@ == spec_format_duration(secs as int, subsec_millis as int),
{
    if secs < 60 * 60 {
        let mut r = u64_to_pad2(secs / 60);
        r.append(":");
        let s = u64_to_pad2(secs % 60);
        r.append(s.as_str());
        r.append(".");
        let c = u64_to_pad2(subsec_millis as u64 / 10);
        r.append(c.as_str());
        proof {
            assert(r@ =~= spec_format_duration(secs as int, subsec_millis as int));
        }
        r
    } else {
        let mut r = u64_to_pad2(secs / (60 * 60));
        r.append(":");
        let m = u64_to_pad2((secs / 60) % 60);
        r.append(m.as_str());
        r.append(":");
        let s = u64_to_pad2(secs % 60);
        r.append(s.as_str());
        proof {
            assert(r@ =~= spec_format_duration(secs as int, subsec_millis as int));
        }
        r
    }
}

} // verus!
