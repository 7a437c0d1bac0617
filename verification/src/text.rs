use vstd::prelude::*;

verus! {

/// The decimal digits of a number, as `Display` writes them.
pub open spec fn decimal(n: nat) -> Seq<char>
    decreases n,
{
    let digit = (('0' as int) + n % 10) as char;
    if n < 10 {
        seq![digit]
    } else {
        decimal(n / 10).push(digit)
    }
}

/// The text of a single decimal digit.
fn digit_text(d: u64) -> (r: &'static str)
    requires
        d < 10,
    ensures
        r@ == seq![(('0' as int) + d) as char],
{
    match d {
        0 => {
            proof {
                reveal_strlit("0");
            }
            "0"
        },
        1 => {
            proof {
                reveal_strlit("1");
            }
            "1"
        },
        2 => {
            proof {
                reveal_strlit("2");
            }
            "2"
        },
        3 => {
            proof {
                reveal_strlit("3");
            }
            "3"
        },
        4 => {
            proof {
                reveal_strlit("4");
            }
            "4"
        },
        5 => {
            proof {
                reveal_strlit("5");
            }
            "5"
        },
        6 => {
            proof {
                reveal_strlit("6");
            }
            "6"
        },
        7 => {
            proof {
                reveal_strlit("7");
            }
            "7"
        },
        8 => {
            proof {
                reveal_strlit("8");
            }
            "8"
        },
        _ => {
            proof {
                reveal_strlit("9");
            }
            "9"
        },
    }
}

/// The number written in decimal, with no sign, padding or separators.
pub fn decimal_text(n: u64) -> (r: String)
    ensures
        r@ == decimal(n as nat),
    decreases n,
{
    if n < 10 {
        String::from_str(digit_text(n))
    } else {
        let mut r = decimal_text(n / 10);
        r.append(digit_text(n % 10));
        assert(r@ =~= decimal(n as nat));
        r
    }
}

/// Two spaces per level.
pub open spec fn spaces(level: nat) -> Seq<char> {
    Seq::new(2 * level, |i: int| ' ')
}

/// The text that indents a line by `level` levels.
pub fn indentation(level: u32) -> (r: String)
    ensures
        r@ == spaces(level as nat),
{
    let mut r = String::from_str("");
    let mut i: u32 = 0;
    proof {
        reveal_strlit("");
        reveal_strlit("  ");
    }
    assert(r@ =~= spaces(0));
    while i < level
        invariant
            i <= level,
            r@ == spaces(i as nat),
            "  "@ =~= seq![' ', ' '],
        decreases level - i,
    {
        r.append("  ");
        i = i + 1;
        assert(r@ =~= spaces(i as nat));
    }
    r
}

} // verus!
