use vstd::prelude::*;
use vstd::string::StringExecFns;

verus! {

/// The character of a digit 0..15, upper-case for 10..15.
pub open spec fn digit_char(d: nat) -> char {
    if d < 10 {
        ('0' as u8 + d) as char
    } else {
        ('A' as u8 + (d - 10)) as char
    }
}

/// The decimal text of `n`, without leading zeros.
pub open spec fn decimal(n: nat) -> Seq<char>
    decreases n,
{
    if n < 10 {
        seq![digit_char(n)]
    } else {
        decimal(n / 10).push(digit_char(n % 10))
    }
}

/// The two upper-case hexadecimal digits of a byte.
pub open spec fn hex2(b: u8) -> Seq<char> {
    seq![digit_char((b / 16) as nat), digit_char((b % 16) as nat)]
}

/// `s` right-aligned in a field of `width` characters, padded with spaces.
pub open spec fn pad_left(s: Seq<char>, width: nat) -> Seq<char> {
    if s.len() < width {
        Seq::new((width - s.len()) as nat, |i: int| ' ') + s
    } else {
        s
    }
}

/// One digit 0..15 as text.
pub fn digit_str(d: u8) -> (s: &'static str)
    requires
        d < 16,
    ensures
        s@ == seq![digit_char(d as nat)],
{
    let s = match d {
        0 => "0",
        1 => "1",
        2 => "2",
        3 => "3",
        4 => "4",
        5 => "5",
        6 => "6",
        7 => "7",
        8 => "8",
        9 => "9",
        10 => "A",
        11 => "B",
        12 => "C",
        13 => "D",
        14 => "E",
        _ => "F",
    };
    proof {
        reveal_strlit("0");
        reveal_strlit("1");
        reveal_strlit("2");
        reveal_strlit("3");
        reveal_strlit("4");
        reveal_strlit("5");
        reveal_strlit("6");
        reveal_strlit("7");
        reveal_strlit("8");
        reveal_strlit("9");
        reveal_strlit("A");
        reveal_strlit("B");
        reveal_strlit("C");
        reveal_strlit("D");
        reveal_strlit("E");
        reveal_strlit("F");
        assert(s@ =~= seq![digit_char(d as nat)]);
    }
    s
}

/// The decimal text of `n`.
pub fn decimal_text(n: u32) -> (r: String)
    ensures
        r@ == decimal(n as nat),
    decreases n,
{
    if n < 10 {
        String::from_str(digit_str(n as u8))
    } else {
        let mut r = decimal_text(n / 10);
        r.append(digit_str((n % 10) as u8));
        proof {
            assert(r@ =~= decimal(n as nat));
        }
        r
    }
}

/// The two upper-case hexadecimal digits of a byte.
pub fn hex_text(b: u8) -> (r: String)
    ensures
        r@ == hex2(b),
{
    let mut r = String::from_str(digit_str(b / 16));
    r.append(digit_str(b % 16));
    proof {
        assert(r@ =~= hex2(b));
    }
    r
}

/// `s` right-aligned in a field of `width` characters.
pub fn padded(s: String, width: usize) -> (r: String)
    ensures
        r@ == pad_left(s@, width as nat),
{
    let len = s.as_str().unicode_len();
    if len < width {
        let mut r = String::new();
        let mut i: usize = 0;
        while i < width - len
            invariant
                len == s@.len(),
                len < width,
                i <= width - len,
                r@ =~= Seq::new(i as nat, |k: int| ' '),
            decreases width - len - i,
        {
            r.append(" ");
            i = i + 1;
            proof {
                reveal_strlit(" ");
            }
        }
        r.append(s.as_str());
        proof {
            assert(r@ =~= pad_left(s@, width as nat));
        }
        r
    } else {
        s
    }
}

} // verus!
