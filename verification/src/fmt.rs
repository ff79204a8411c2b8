//! Small text helpers for presenting sample values.

use vstd::prelude::*;

verus! {

/// `n` space characters.
pub open spec fn spaces(n: nat) -> Seq<char>
    decreases n,
{
    if n == 0 {
        Seq::empty()
    } else {
        spaces((n - 1) as nat).push(' ')
    }
}

pub proof fn lemma_spaces_len(n: nat)
    ensures
        spaces(n).len() == n,
        forall|i: int| 0 <= i < n ==> spaces(n)[i] == ' ',
    decreases n,
{
    if n > 0 {
        lemma_spaces_len((n - 1) as nat);
    }
}

/// Right-aligns `str_to_format` in a field of `chars_tot` characters by
/// prepending spaces.
pub fn add_whitespace(str_to_format: String, chars_tot: u32) -> (r: String)
    requires
        str_to_format@.len() <= chars_tot,
    ensures
        r@ == spaces((chars_tot - str_to_format@.len()) as nat) + str_to_format@,
        r@.len() == chars_tot,
{
    let char_num = str_to_format.as_str().unicode_len() as u32;
    let space_num = chars_tot - char_num;

    let mut ret_string = String::new();

    let mut i: u32 = 0;
    while i < space_num
        invariant
            i <= space_num,
            ret_string@ == spaces(i as nat),
        decreases space_num - i,
    {
        ret_string.append(" ");
        i = i + 1;
        proof {
            reveal_strlit(" ");
            assert(ret_string@ =~= spaces(i as nat));
        }
    }

    ret_string.append(str_to_format.as_str());

    proof {
        lemma_spaces_len((chars_tot - str_to_format@.len()) as nat);
    }
    ret_string
}

/// The character of one decimal digit.
pub open spec fn digit_char(d: int) -> char {
    if d == 0 {
        '0'
    } else if d == 1 {
        '1'
    } else if d == 2 {
        '2'
    } else if d == 3 {
        '3'
    } else if d == 4 {
        '4'
    } else if d == 5 {
        '5'
    } else if d == 6 {
        '6'
    } else if d == 7 {
        '7'
    } else if d == 8 {
        '8'
    } else {
        '9'
    }
}

/// The decimal representation of `n`, most significant digit first, with no
/// leading zeros (a lone "0" for zero).
pub open spec fn dec_rep(n: nat) -> Seq<char>
    decreases n,
{
    if n < 10 {
        seq![digit_char(n as int)]
    } else {
        dec_rep(n / 10).push(digit_char((n % 10) as int))
    }
}

/// A value in tenths rendered with one decimal place: "573" becomes "57.3".
pub open spec fn tenths_rep(v: int) -> Seq<char>
    recommends
        v >= 0,
{
    dec_rep((v / 10) as nat).push('.').push(digit_char(v % 10))
}

/// A possibly negative whole number in decimal.
pub open spec fn int_rep(v: int) -> Seq<char> {
    if v >= 0 {
        dec_rep(v as nat)
    } else {
        seq!['-'] + dec_rep((-v) as nat)
    }
}

fn push_digit(s: &mut String, d: u64)
    requires
        d < 10,
    ensures
        final(s)@ == old(s)@.push(digit_char(d as int)),
{
    if d == 0 {
        proof {
            reveal_strlit("0");
        }
        s.append("0");
    } else if d == 1 {
        proof {
            reveal_strlit("1");
        }
        s.append("1");
    } else if d == 2 {
        proof {
            reveal_strlit("2");
        }
        s.append("2");
    } else if d == 3 {
        proof {
            reveal_strlit("3");
        }
        s.append("3");
    } else if d == 4 {
        proof {
            reveal_strlit("4");
        }
        s.append("4");
    } else if d == 5 {
        proof {
            reveal_strlit("5");
        }
        s.append("5");
    } else if d == 6 {
        proof {
            reveal_strlit("6");
        }
        s.append("6");
    } else if d == 7 {
        proof {
            reveal_strlit("7");
        }
        s.append("7");
    } else if d == 8 {
        proof {
            reveal_strlit("8");
        }
        s.append("8");
    } else {
        proof {
            reveal_strlit("9");
        }
        s.append("9");
    }
    proof {
        assert(s@ =~= old(s)@.push(digit_char(d as int)));
    }
}

/// `v` in decimal.
pub fn format_u64(v: u64) -> (s: String)
    ensures
        s@ == dec_rep(v as nat),
    decreases v,
{
    if v < 10 {
        let mut s = String::new();
        push_digit(&mut s, v);
        proof {
            assert(s@ =~= dec_rep(v as nat));
        }
        s
    } else {
        let mut s = format_u64(v / 10);
        push_digit(&mut s, v % 10);
        s
    }
}

/// A value in tenths with one decimal place: 573 becomes "57.3".
pub fn format_tenths(v: u64) -> (s: String)
    ensures
        s@ == tenths_rep(v as int),
{
    let mut s = format_u64(v / 10);
    proof {
        reveal_strlit(".");
    }
    s.append(".");
    proof {
        assert(s@ =~= dec_rep((v / 10) as nat).push('.'));
    }
    push_digit(&mut s, v % 10);
    s
}

/// A possibly negative whole number in decimal.
pub fn format_i64(v: i64) -> (s: String)
    ensures
        s@ == int_rep(v as int),
{
    if v >= 0 {
        format_u64(v as u64)
    } else {
        let magnitude: u64 = (-(v as i128)) as u64;
        let mut s = String::new();
        proof {
            reveal_strlit("-");
        }
        s.append("-");
        let digits = format_u64(magnitude);
        s.append(digits.as_str());
        proof {
            assert(s@ =~= seq!['-'] + dec_rep(magnitude as nat));
        }
        s
    }
}

} // verus!
