//! Small verified string-building helpers: runs of a repeated character and
//! decimal formatting of unsigned integers.

use vstd::prelude::*;

verus! {

/// A run of `n` space characters.
pub open spec fn space_seq(n: nat) -> Seq<char> {
    Seq::new(n, |i: int| ' ')
}

/// A run of `n` dash characters.
pub open spec fn dash_seq(n: nat) -> Seq<char> {
    Seq::new(n, |i: int| '-')
}

/// Builds the string of `n` spaces.
pub fn spaces(n: usize) -> (r: String)
    ensures
        r@ == space_seq(n as nat),
{
    let mut s = String::new();
    let mut i: usize = 0;
    proof {
        assert(s@ =~= space_seq(0));
    }
    while i < n
        invariant
            i <= n,
            s@ == space_seq(i as nat),
        decreases n - i,
    {
        s.append(" ");
        i = i + 1;
        proof {
            reveal_strlit(" ");
            assert(s@ =~= space_seq(i as nat));
        }
    }
    s
}

/// Builds the string of `n` dashes.
pub fn dashes(n: usize) -> (r: String)
    ensures
        r@ == dash_seq(n as nat),
{
    let mut s = String::new();
    let mut i: usize = 0;
    proof {
        assert(s@ =~= dash_seq(0));
    }
    while i < n
        invariant
            i <= n,
            s@ == dash_seq(i as nat),
        decreases n - i,
    {
        s.append("-");
        i = i + 1;
        proof {
            reveal_strlit("-");
            assert(s@ =~= dash_seq(i as nat));
        }
    }
    s
}

/// The character for one decimal digit.
pub open spec fn digit_char(d: nat) -> char {
    if d == 0 {
        '0'
    } else if d == 1 {
        '1'
    } else if d == 2 {
        '2'
    } else if d == 3 {
        '3'
    } else if d == 4 {
        '4'
    } else if d == 5 {
        '5'
    } else if d == 6 {
        '6'
    } else if d == 7 {
        '7'
    } else if d == 8 {
        '8'
    } else {
        '9'
    }
}

/// The usual decimal writing of `n`: no sign, no leading zero except for the
/// number zero itself.
pub open spec fn dec_rep(n: nat) -> Seq<char>
    decreases n,
{
    if n < 10 {
        seq![digit_char(n)]
    } else {
        dec_rep(n / 10) + seq![digit_char(n % 10)]
    }
}

/// The one-character string for a decimal digit.
pub(crate) fn digit_str(d: u64) -> (r: &'static str)
    requires
        d < 10,
    ensures
        r@ == seq![digit_char(d as nat)],
{
    if d == 0 {
        proof { reveal_strlit("0"); }
        "0"
    } else if d == 1 {
        proof { reveal_strlit("1"); }
        "1"
    } else if d == 2 {
        proof { reveal_strlit("2"); }
        "2"
    } else if d == 3 {
        proof { reveal_strlit("3"); }
        "3"
    } else if d == 4 {
        proof { reveal_strlit("4"); }
        "4"
    } else if d == 5 {
        proof { reveal_strlit("5"); }
        "5"
    } else if d == 6 {
        proof { reveal_strlit("6"); }
        "6"
    } else if d == 7 {
        proof { reveal_strlit("7"); }
        "7"
    } else if d == 8 {
        proof { reveal_strlit("8"); }
        "8"
    } else {
        proof { reveal_strlit("9"); }
        "9"
    }
}

/// Writes `n` in decimal.
pub fn u64_to_string(n: u64) -> (r: String)
    ensures
        r@ == dec_rep(n as nat),
    decreases n,
{
    if n < 10 {
        let d = digit_str(n);
        d.to_owned()
    } else {
        let mut s = u64_to_string(n / 10);
        s.append(digit_str(n % 10));
        s
    }
}

/// The parts joined by the separator: `p0 sep p1 sep ... sep pk`.
pub open spec fn join_seq(sep: Seq<char>, parts: Seq<Seq<char>>) -> Seq<char>
    decreases parts.len(),
{
    if parts.len() == 0 {
        Seq::empty()
    } else if parts.len() == 1 {
        parts[0]
    } else {
        join_seq(sep, parts.drop_last()) + sep + parts.last()
    }
}

/// Joins the parts with the separator between neighbours.
pub fn join_with(sep: &str, parts: &Vec<String>) -> (r: String)
    ensures
        r@ == join_seq(sep@, parts.deep_view()),
{
    let mut s = String::new();
    let mut i: usize = 0;
    proof {
        assert(s@ =~= join_seq(sep@, parts.deep_view().take(0)));
    }
    while i < parts.len()
        invariant
            i <= parts.deep_view().len(),
            parts.deep_view().len() == parts@.len(),
            forall|j: int| 0 <= j < parts@.len() ==> parts.deep_view()[j] == parts@[j]@,
            s@ == join_seq(sep@, parts.deep_view().take(i as int)),
        decreases parts.len() - i,
    {
        if i > 0 {
            s.append(sep);
        }
        s.append(parts[i].as_str());
        i = i + 1;
        proof {
            let dv = parts.deep_view();
            assert(dv.take(i as int).drop_last() =~= dv.take(i - 1));
            assert(dv.take(i as int).last() == dv[i - 1]);
            assert(s@ == join_seq(sep@, dv.take(i as int)));
        }
    }
    proof {
        assert(parts.deep_view().take(parts@.len() as int) =~= parts.deep_view());
    }
    s
}

} // verus!
