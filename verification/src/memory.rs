//! Memory display values. Raw byte counts are converted to gibibytes by the
//! pure binary factor 1024 * 1024 * 1024 and shown with one decimal digit,
//! truncated, never rounded; the label reads `GB`, as the host's own task
//! tools do for the same binary values. The usage rate is shown the same
//! way, truncated to one decimal digit of a percent.

use vstd::prelude::*;

use crate::text::{dec_rep, digit_char, digit_str, u64_to_string};

verus! {

pub const BYTES_PER_GIB: u64 = 1073741824;

/// Whole gibibytes in `bytes`.
pub open spec fn gib_whole(bytes: nat) -> nat {
    bytes / 1073741824
}

/// The first decimal digit of the gibibyte value of `bytes`, truncated.
pub open spec fn gib_tenth(bytes: nat) -> nat {
    (bytes % 1073741824) * 10 / 1073741824
}

/// Tenths of a percent that `used` is of `total`, truncated.
pub open spec fn rate_tenths(used: nat, total: nat) -> nat
    recommends
        total > 0,
{
    used * 1000 / total
}

/// A gibibyte count with one truncated decimal digit: `12.3`.
pub open spec fn gib_text(bytes: nat) -> Seq<char> {
    dec_rep(gib_whole(bytes)) + "."@ + seq![digit_char(gib_tenth(bytes))]
}

/// The memory value line: used, total, and the usage rate, each with one
/// truncated decimal digit.
pub open spec fn memory_text(used: nat, total: nat) -> Seq<char> {
    gib_text(used) + "GB / "@ + gib_text(total) + " GB ("@ + dec_rep(
        rate_tenths(used, total) / 10,
    ) + "."@ + seq![digit_char(rate_tenths(used, total) % 10)] + "%)"@
}

/// Writes a byte count as gibibytes with one truncated decimal digit.
pub fn format_gib(bytes: u64) -> (r: String)
    ensures
        r@ == gib_text(bytes as nat),
{
    let whole = bytes / BYTES_PER_GIB;
    let rem = bytes % BYTES_PER_GIB;
    let tenth = rem * 10 / BYTES_PER_GIB;
    let mut s = u64_to_string(whole);
    s.append(".");
    s.append(digit_str(tenth));
    proof {
        assert(s@ =~= gib_text(bytes as nat));
    }
    s
}

/// Renders the memory record value: `used GB / total GB (rate%)` with the
/// byte counts converted to gibibytes. `used` may not exceed `total`.
pub fn format_memory(used: u64, total: u64) -> (r: String)
    requires
        0 < total,
        used <= total,
    ensures
        r@ == memory_text(used as nat, total as nat),
{
    let permille_wide: u128 = (used as u128) * 1000 / (total as u128);
    proof {
        let u = used as int;
        let t = total as int;
        assert(u * 1000 / t <= 1000) by (nonlinear_arith)
            requires
                0 <= u <= t,
                0 < t,
        ;
        assert(permille_wide as int == u * 1000 / t);
    }
    let permille = permille_wide as u64;
    let mut s = format_gib(used);
    s.append("GB / ");
    s.append(format_gib(total).as_str());
    s.append(" GB (");
    s.append(u64_to_string(permille / 10).as_str());
    s.append(".");
    s.append(digit_str(permille % 10));
    s.append("%)");
    proof {
        assert(permille as nat == rate_tenths(used as nat, total as nat));
        assert(s@ =~= memory_text(used as nat, total as nat));
    }
    s
}

} // verus!
