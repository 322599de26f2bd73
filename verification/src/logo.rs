//! The fixed ASCII-art logo: fifteen rows of a two-pane window mark, each
//! exactly `LOGO_WIDTH` characters wide, with a blank row of spaces in the
//! middle. The width is tracked as an explicit constant because the
//! compositor must pad missing logo rows to exactly this width.

use vstd::prelude::*;

use crate::style::{blue_wrap, colorize};
use crate::text::{join_seq, join_with, space_seq, spaces};

verus! {

pub const LOGO_WIDTH: usize = 32;

pub const LOGO_HEIGHT: usize = 15;

/// One filled logo row: two panes of fifteen marks with two spaces between.
pub open spec fn logo_row() -> Seq<char> {
    "###############  ###############"@
}

/// The logo, row by row: seven filled rows, a blank row of spaces, and
/// seven filled rows again.
pub open spec fn logo_rows() -> Seq<Seq<char>> {
    Seq::new(
        15,
        |i: int|
            if i == 7 {
                space_seq(32)
            } else {
                logo_row()
            },
    )
}

/// Every logo row is exactly `LOGO_WIDTH` characters wide.
pub proof fn lemma_logo_row_width(i: int)
    requires
        0 <= i < logo_rows().len(),
    ensures
        logo_rows()[i].len() == LOGO_WIDTH,
{
    reveal_strlit("###############  ###############");
}

/// Builds the logo rows as plain strings.
pub fn logo_lines() -> (r: Vec<String>)
    ensures
        r.deep_view() == logo_rows(),
        r@.len() == 15,
{
    let mut out: Vec<String> = Vec::new();
    let mut i: usize = 0;
    while i < 15
        invariant
            i <= 15,
            out@.len() == i,
            forall|j: int| 0 <= j < i ==> out@[j]@ == logo_rows()[j],
        decreases 15 - i,
    {
        if i == 7 {
            out.push(spaces(32));
        } else {
            out.push("###############  ###############".to_owned());
        }
        i = i + 1;
    }
    proof {
        assert forall|j: int| 0 <= j < 15 implies out.deep_view()[j] == logo_rows()[j] by {
            assert(out.deep_view()[j] == out@[j]@);
        }
        assert(out.deep_view() =~= logo_rows());
    }
    out
}

/// The logo rows, each wrapped in the color escape pair.
pub open spec fn styled_logo_rows() -> Seq<Seq<char>> {
    Seq::new(15, |i: int| blue_wrap(logo_rows()[i]))
}

/// Builds the logo rows with each row wrapped in the color escape pair.
pub fn styled_logo_lines() -> (r: Vec<String>)
    ensures
        r.deep_view() == styled_logo_rows(),
        r@.len() == 15,
{
    let plain = logo_lines();
    let mut out: Vec<String> = Vec::new();
    let mut i: usize = 0;
    while i < plain.len()
        invariant
            i <= plain@.len(),
            plain@.len() == 15,
            plain.deep_view() == logo_rows(),
            out@.len() == i,
            forall|j: int| 0 <= j < i ==> out@[j]@ == blue_wrap(logo_rows()[j]),
        decreases plain@.len() - i,
    {
        out.push(colorize(plain[i].as_str()));
        i = i + 1;
        proof {
            assert(plain@[i - 1]@ == plain.deep_view()[i - 1]);
        }
    }
    proof {
        assert forall|j: int| 0 <= j < 15 implies out.deep_view()[j] == styled_logo_rows()[j] by {
            assert(out.deep_view()[j] == out@[j]@);
        }
        assert(out.deep_view() =~= styled_logo_rows());
    }
    out
}

/// The whole logo as one string, rows joined by newlines.
pub fn get_logo() -> (r: String)
    ensures
        r@ == join_seq("\n"@, logo_rows()),
{
    let lines = logo_lines();
    join_with("\n", &lines)
}

} // verus!
