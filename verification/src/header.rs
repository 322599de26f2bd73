//! The report header `user@host` and its underline.
//!
//! The underline is a run of dashes exactly as long as the plain header
//! text, measured in characters (not bytes): a multi-byte user or host name
//! gets one dash per character.

use vstd::prelude::*;

use crate::style::{blue_wrap, colorize};
use crate::text::{dash_seq, dashes};

verus! {

/// The header text without color: `user@host`.
pub open spec fn plain_header(user: Seq<char>, host: Seq<char>) -> Seq<char> {
    user + "@"@ + host
}

/// The header as shown: the user and host names each wrapped in the color
/// escape pair, the `@` between them plain.
pub open spec fn header_text(user: Seq<char>, host: Seq<char>) -> Seq<char> {
    blue_wrap(user) + "@"@ + blue_wrap(host)
}

/// The underline under the header: one dash per character of the plain
/// header text.
pub open spec fn underline_text(user: Seq<char>, host: Seq<char>) -> Seq<char> {
    dash_seq(plain_header(user, host).len())
}

/// The underline is exactly as long as the plain `user@host` header text,
/// whatever the user and host names are.
pub proof fn lemma_underline_matches_header(user: Seq<char>, host: Seq<char>)
    ensures
        underline_text(user, host).len() == plain_header(user, host).len(),
{
}

/// Builds the colored header line.
pub fn make_header(user: &str, host: &str) -> (r: String)
    ensures
        r@ == header_text(user@, host@),
{
    let mut s = colorize(user);
    s.append("@");
    s.append(colorize(host).as_str());
    proof {
        assert(s@ =~= header_text(user@, host@));
    }
    s
}

/// Builds the underline for the header of the given user and host names.
pub fn underline_for(user: &str, host: &str) -> (r: String)
    requires
        user@.len() + host@.len() + 1 <= usize::MAX,
    ensures
        r@ == underline_text(user@, host@),
{
    let n = user.unicode_len() + 1 + host.unicode_len();
    proof {
        reveal_strlit("@");
    }
    dashes(n)
}

} // verus!
