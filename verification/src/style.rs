//! ANSI colorization. One color is used throughout: bright blue, applied by
//! the `tiny_ansi` crate. The crate-wide policy decides which parts of the
//! report are colored; under every policy the logo lines and the header's
//! user and host names are colored, and the underline never is.

use vstd::prelude::*;

use crate::text::{space_seq, spaces};

verus! {

/// The escape sequence that switches the terminal to bright blue.
pub open spec fn blue_prefix() -> Seq<char> {
    seq!['\u{1b}', '[', '9', '4', 'm']
}

/// The escape sequence that resets the terminal color.
pub open spec fn color_reset() -> Seq<char> {
    seq!['\u{1b}', '[', '0', 'm']
}

/// The text wrapped in the bright-blue escape pair.
pub open spec fn blue_wrap(s: Seq<char>) -> Seq<char> {
    blue_prefix() + s + color_reset()
}

/// The text wrapped in the escape pair when `b` holds, and unchanged else.
pub open spec fn maybe_blue(b: bool, s: Seq<char>) -> Seq<char> {
    if b {
        blue_wrap(s)
    } else {
        s
    }
}

/// Relies on tiny_ansi's `TinyAnsi::bright_blue` for `str`: it returns
/// exactly `"\u{1b}[94m"`, then the input, then `"\u{1b}[0m"`.
#[verifier::external_body]
fn bright_blue_raw(s: &str) -> (r: String)
    ensures
        r@ == blue_wrap(s@),
{
    tiny_ansi::TinyAnsi::bright_blue(s)
}

/// Wraps the text in the bright-blue escape pair.
pub fn colorize(s: &str) -> (r: String)
    ensures
        r@ == blue_wrap(s@),
{
    bright_blue_raw(s)
}

pub const LABEL_WIDTH: usize = 12;

/// A label with its colon, padded with spaces to the fixed label column
/// width of twelve characters; a longer label is left as it is.
pub open spec fn fixed_label(s: Seq<char>) -> Seq<char> {
    let base = s + ":"@;
    if base.len() < 12 {
        base + space_seq((12 - base.len()) as nat)
    } else {
        base
    }
}

/// The fixed-width label convention: the text, a colon, spaces up to the
/// fixed label column width, the whole wrapped in the color escape pair.
pub fn create_label(s: &str) -> (r: String)
    ensures
        r@ == blue_wrap(fixed_label(s@)),
{
    let mut t = s.to_owned();
    t.append(":");
    let n = t.as_str().unicode_len();
    if n < LABEL_WIDTH {
        t.append(spaces(LABEL_WIDTH - n).as_str());
    }
    proof {
        assert(t@ =~= fixed_label(s@));
    }
    colorize(t.as_str())
}

/// Which parts of the report are colored, besides the logo and the header,
/// which every policy colors. `LabelsAndLogo` is the canonical policy: record
/// labels are colored, record values are not.
#[derive(Clone, Copy, PartialEq, Eq, Structural)]
pub enum ColorPolicy {
    /// Color the record labels (the canonical policy).
    LabelsAndLogo,
    /// Color only the logo and the header; leave labels plain.
    LogoAndHeader,
    /// Color the record labels and the record values.
    Everything,
}

/// Whether the policy colors record labels.
pub open spec fn colors_labels(p: ColorPolicy) -> bool {
    p == ColorPolicy::LabelsAndLogo || p == ColorPolicy::Everything
}

/// Whether the policy colors record values.
pub open spec fn colors_values(p: ColorPolicy) -> bool {
    p == ColorPolicy::Everything
}

impl ColorPolicy {
    /// Whether this policy colors record labels.
    pub fn labels_colored(&self) -> (r: bool)
        ensures
            r == colors_labels(*self),
    {
        match self {
            ColorPolicy::LabelsAndLogo => true,
            ColorPolicy::LogoAndHeader => false,
            ColorPolicy::Everything => true,
        }
    }

    /// Whether this policy colors record values.
    pub fn values_colored(&self) -> (r: bool)
        ensures
            r == colors_values(*self),
    {
        match self {
            ColorPolicy::LabelsAndLogo => false,
            ColorPolicy::LogoAndHeader => false,
            ColorPolicy::Everything => true,
        }
    }
}

} // verus!
