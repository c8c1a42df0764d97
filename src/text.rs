use vstd::prelude::*;
use vstd::string::StringExecFns;

verus! {

/// The upper-case hexadecimal digit for `d` (taken modulo 16 beyond 15).
pub open spec fn digit_char(d: int) -> char {
    if d == 0 {
        '0'
    } else if d == 1 {
        '1'
    } else if d == 2 {
        '2'
    } else if d == 3 {
        '3'
    } else if d == 4 {
        '4'
    } else if d == 5 {
        '5'
    } else if d == 6 {
        '6'
    } else if d == 7 {
        '7'
    } else if d == 8 {
        '8'
    } else if d == 9 {
        '9'
    } else if d == 10 {
        'A'
    } else if d == 11 {
        'B'
    } else if d == 12 {
        'C'
    } else if d == 13 {
        'D'
    } else if d == 14 {
        'E'
    } else {
        'F'
    }
}

/// Bits `4 * k .. 4 * k + 4` of `w`.
pub open spec fn nibble(w: u32, k: u32) -> u32 {
    (w >> (4 * k)) & 15
}

/// `w` as `0x` followed by exactly eight upper-case hexadecimal digits,
/// the most significant first.
pub open spec fn hex_word_text(w: u32) -> Seq<char> {
    "0x"@ + Seq::new(8, |i: int| digit_char(nibble(w, (7 - i) as u32) as int))
}

/// The decimal digits of `n`, without sign or leading zeros.
pub open spec fn decimal_text(n: nat) -> Seq<char>
    decreases n,
{
    if n < 10 {
        seq![digit_char(n as int)]
    } else {
        decimal_text(n / 10).push(digit_char((n % 10) as int))
    }
}

/// Appends the digit `d` to `s`.
pub fn push_digit(s: &mut String, d: u32)
    requires
        d < 16,
    ensures
        final(s)@ == old(s)@.push(digit_char(d as int)),
{
    if d == 0 {
        proof {
            reveal_strlit("0");
        }
        s.append("0");
    } else if d == 1 {
        proof {
            reveal_strlit("1");
        }
        s.append("1");
    } else if d == 2 {
        proof {
            reveal_strlit("2");
        }
        s.append("2");
    } else if d == 3 {
        proof {
            reveal_strlit("3");
        }
        s.append("3");
    } else if d == 4 {
        proof {
            reveal_strlit("4");
        }
        s.append("4");
    } else if d == 5 {
        proof {
            reveal_strlit("5");
        }
        s.append("5");
    } else if d == 6 {
        proof {
            reveal_strlit("6");
        }
        s.append("6");
    } else if d == 7 {
        proof {
            reveal_strlit("7");
        }
        s.append("7");
    } else if d == 8 {
        proof {
            reveal_strlit("8");
        }
        s.append("8");
    } else if d == 9 {
        proof {
            reveal_strlit("9");
        }
        s.append("9");
    } else if d == 10 {
        proof {
            reveal_strlit("A");
        }
        s.append("A");
    } else if d == 11 {
        proof {
            reveal_strlit("B");
        }
        s.append("B");
    } else if d == 12 {
        proof {
            reveal_strlit("C");
        }
        s.append("C");
    } else if d == 13 {
        proof {
            reveal_strlit("D");
        }
        s.append("D");
    } else if d == 14 {
        proof {
            reveal_strlit("E");
        }
        s.append("E");
    } else {
        proof {
            reveal_strlit("F");
        }
        s.append("F");
    }
}

/// Appends `hex_word_text(w)` to `s`.
pub fn push_hex_word(s: &mut String, w: u32)
    ensures
        final(s)@ == old(s)@ + hex_word_text(w),
{
    proof {
        reveal_strlit("0x");
    }
    let ghost start = s@;
    s.append("0x");
    assert(hex_word_text(w).subrange(0, 2) =~= seq!['0', 'x']);
    assert(s@ =~= start + hex_word_text(w).subrange(0, 2));
    let mut i: u32 = 0;
    while i < 8
        invariant
            0 <= i <= 8,
            hex_word_text(w).len() == 10,
            hex_word_text(w).subrange(0, 2) == seq!['0', 'x'],
            s@ == start + hex_word_text(w).subrange(0, 2 + i as int),
        decreases 8 - i,
    {
        let k: u32 = 7 - i;
        let d: u32 = (w >> (4 * k)) & 15;
        assert(d < 16) by (bit_vector)
            requires
                d == (w >> (4 * k)) & 15,
        ;
        assert(d == nibble(w, k));
        assert(hex_word_text(w)[2 + i as int] == digit_char(nibble(w, k) as int));
        push_digit(s, d);
        i = i + 1;
        assert(s@ =~= start + hex_word_text(w).subrange(0, 2 + i as int));
    }
    assert(hex_word_text(w).subrange(0, 10) =~= hex_word_text(w));
}

/// Appends `decimal_text(n)` to `s`.
pub fn push_decimal(s: &mut String, n: u64)
    ensures
        final(s)@ == old(s)@ + decimal_text(n as nat),
    decreases n,
{
    if n >= 10 {
        push_decimal(s, n / 10);
    }
    push_digit(s, (n % 10) as u32);
    assert(final(s)@ =~= old(s)@ + decimal_text(n as nat));
}

} // verus!
