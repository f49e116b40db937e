use vstd::prelude::*;

verus! {

/// The character of one decimal digit.
pub open spec fn spec_digit(d: nat) -> char {
    ((d + 48) as u8) as char
}

/// The decimal digits of `n`, most significant first, with no sign and no
/// leading zero (a single `'0'` for zero).
pub open spec fn spec_decimal(n: nat) -> Seq<char>
    decreases n,
{
    if n < 10 {
        seq![spec_digit(n)]
    } else {
        spec_decimal(n / 10) + seq![spec_digit(n % 10)]
    }
}

/// The decimal form of a signed value: a leading `'-'` before the digits
/// of the magnitude when negative.
pub open spec fn spec_decimal_i64(n: int) -> Seq<char> {
    if n >= 0 {
        spec_decimal(n as nat)
    } else {
        seq!['-'] + spec_decimal((-n) as nat)
    }
}

/// One output record: the key, a tab, then the size in decimal.
pub open spec fn spec_record_line(key: Seq<char>, size: i64) -> Seq<char> {
    key + seq!['\t'] + spec_decimal_i64(size as int)
}

fn digit_str(d: u64) -> (r: &'static str)
    requires
        d < 10,
    ensures
        r@ =~= seq![spec_digit(d as nat)],
{
    proof {
        reveal_strlit("0");
        reveal_strlit("1");
        reveal_strlit("2");
        reveal_strlit("3");
        reveal_strlit("4");
        reveal_strlit("5");
        reveal_strlit("6");
        reveal_strlit("7");
        reveal_strlit("8");
        reveal_strlit("9");
    }
    match d {
        0 => "0",
        1 => "1",
        2 => "2",
        3 => "3",
        4 => "4",
        5 => "5",
        6 => "6",
        7 => "7",
        8 => "8",
        _ => "9",
    }
}

fn append_decimal(out: &mut String, n: u64)
    ensures
        final(out)@ == old(out)@ + spec_decimal(n as nat),
    decreases n,
{
    if n < 10 {
        out.append(digit_str(n));
    } else {
        append_decimal(out, n / 10);
        out.append(digit_str(n % 10));
        proof {
            assert(out@ =~= old(out)@ + spec_decimal(n as nat));
        }
    }
}

/// Formats one surviving record as the output stream carries it: the
/// transformed key, one tab, then the size in plain decimal.
pub fn format_record(key: &str, size: i64) -> (r: String)
    ensures
        r@ == spec_record_line(key@, size),
{
    proof {
        reveal_strlit("\t");
        reveal_strlit("-");
    }
    let mut out = String::from_str(key);
    out.append("\t");
    if size >= 0 {
        append_decimal(&mut out, size as u64);
    } else {
        out.append("-");
        let magnitude: u64 = if size == i64::MIN {
            9223372036854775808u64
        } else {
            (-size) as u64
        };
        append_decimal(&mut out, magnitude);
    }
    proof {
        assert(out@ =~= spec_record_line(key@, size));
    }
    out
}

} // verus!
