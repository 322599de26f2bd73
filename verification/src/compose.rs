//! The compositor: merges the logo column and the info column into the
//! final printable rows, reconciling their lengths. The shorter column is
//! padded — missing info rows with empty strings, missing logo rows with
//! spaces of exactly the logo's fixed width, so the info column's start
//! position never shifts.

use vstd::prelude::*;

use crate::text::{space_seq, spaces};

verus! {

/// Row `i` of a column, or the filler once the column is exhausted.
pub open spec fn col_at(col: Seq<Seq<char>>, fill: Seq<char>, i: int) -> Seq<char> {
    if 0 <= i < col.len() {
        col[i]
    } else {
        fill
    }
}

/// The merged rows: as many as the longer column has, each a fixed indent
/// of four spaces, the logo row (or its space filler of the logo's width),
/// a gap of two spaces, and the info row (or an empty string).
pub open spec fn compose_text(logo: Seq<Seq<char>>, width: nat, info: Seq<Seq<char>>) -> Seq<
    Seq<char>,
> {
    let n = if logo.len() >= info.len() {
        logo.len()
    } else {
        info.len()
    };
    Seq::new(
        n,
        |i: int|
            "    "@ + col_at(logo, space_seq(width), i) + "  "@ + col_at(
                info,
                Seq::<char>::empty(),
                i,
            ),
    )
}

/// Merges the logo and info columns into the final rows. `width` is the
/// logo's fixed column width, used to fill missing logo rows.
pub fn compose(logo: &Vec<String>, width: usize, info: &Vec<String>) -> (out: Vec<String>)
    ensures
        out.deep_view() == compose_text(logo.deep_view(), width as nat, info.deep_view()),
        out@.len() == if logo@.len() >= info@.len() {
            logo@.len()
        } else {
            info@.len()
        },
{
    let ghost expected = compose_text(logo.deep_view(), width as nat, info.deep_view());
    let n = if logo.len() >= info.len() {
        logo.len()
    } else {
        info.len()
    };
    let mut out: Vec<String> = Vec::new();
    let mut i: usize = 0;
    while i < n
        invariant
            i <= n,
            n as int == expected.len(),
            expected == compose_text(logo.deep_view(), width as nat, info.deep_view()),
            n == if logo@.len() >= info@.len() {
                logo@.len()
            } else {
                info@.len()
            },
            out@.len() == i,
            forall|j: int| 0 <= j < i ==> out@[j]@ == expected[j],
        decreases n - i,
    {
        let mut line = "    ".to_owned();
        if i < logo.len() {
            line.append(logo[i].as_str());
            proof {
                assert(logo@[i as int]@ == logo.deep_view()[i as int]);
            }
        } else {
            line.append(spaces(width).as_str());
        }
        line.append("  ");
        if i < info.len() {
            line.append(info[i].as_str());
            proof {
                assert(info@[i as int]@ == info.deep_view()[i as int]);
            }
        }
        proof {
            assert(line@ =~= expected[i as int]);
        }
        out.push(line);
        i = i + 1;
    }
    proof {
        assert forall|j: int| 0 <= j < expected.len() implies out.deep_view()[j] == expected[j] by {
            assert(out.deep_view()[j] == out@[j]@);
        }
        assert(out.deep_view() =~= expected);
    }
    out
}

} // verus!
