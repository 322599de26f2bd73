//! The record model and the label alignment pass.
//!
//! A record is one labeled host fact with one or more string values. A batch
//! of records shares one alignment pass: every record's padding is set so
//! that `label + padding` spans the width of the longest label, and the value
//! column starts at the same screen column on every row.

use vstd::prelude::*;

use crate::style::{colors_labels, colors_values, maybe_blue, ColorPolicy};
use crate::style::colorize;
use crate::text::{space_seq, spaces};

verus! {

/// The values of a record: a single value, or a first value with its
/// continuation values. The renderer resolves the two shapes exhaustively;
/// a record always holds at least one value by construction.
pub enum Values {
    /// One value, rendered on the label line itself.
    Single { value: String },
    /// A bulleted first value on the label line and one continuation line
    /// for each later value.
    Multi { first: String, rest: Vec<String> },
}

/// One labeled host fact. `padding` is meaningful only after the alignment
/// pass [`compute_padding`] has run over the whole batch; it is zero when
/// the record is built and never changes afterwards.
pub struct Record {
    /// The label shown before the colon; never empty.
    pub label: String,
    /// The value or values shown after the colon.
    pub values: Values,
    /// Spaces inserted after `"label: "` so that all value columns of a
    /// batch start at the same screen column.
    pub padding: usize,
}

impl Record {
    /// A well-formed record has a non-empty label.
    pub open spec fn wf(self) -> bool {
        self.label@.len() > 0
    }

    /// All values of the record, first to last.
    pub open spec fn values_seq(self) -> Seq<Seq<char>> {
        match self.values {
            Values::Single { value } => seq![value@],
            Values::Multi { first, rest } => seq![first@] + rest.deep_view(),
        }
    }

    /// The lines the record renders to. A single value yields one line,
    /// `"label: " + padding + value`; multiple values yield a bulleted first
    /// line and one continuation line per later value, whose bullet stands
    /// under the first bullet, not under the label. The label is wrapped in
    /// the color escape pair when `color_label` holds, each value when
    /// `color_value` holds; the layout spaces never are.
    pub open spec fn lines_spec(self, color_label: bool, color_value: bool) -> Seq<Seq<char>> {
        let lab = maybe_blue(color_label, self.label@);
        let lead = lab + ": "@ + space_seq(self.padding as nat);
        match self.values {
            Values::Single { value } => seq![lead + maybe_blue(color_value, value@)],
            Values::Multi { first, rest } => seq![
                lead + "- "@ + maybe_blue(color_value, first@),
            ] + Seq::new(
                rest@.len(),
                |i: int|
                    space_seq((self.label@.len() + self.padding) as nat) + "  - "@ + maybe_blue(
                        color_value,
                        rest@[i]@,
                    ),
            ),
        }
    }

    /// Builds a record from a label and its values; the padding starts at
    /// zero. The label must be non-empty and at least one value given.
    pub fn new(label: String, values: Vec<String>) -> (r: Record)
        requires
            label@.len() > 0,
            values@.len() >= 1,
        ensures
            r.label == label,
            r.padding == 0,
            r.values_seq() == values.deep_view(),
            values@.len() == 1 ==> (r.values matches Values::Single { .. }),
            values@.len() > 1 ==> (r.values matches Values::Multi { .. }),
            r.wf(),
    {
        let mut vs = values;
        let first = vs.remove(0);
        let r = if vs.len() == 0 {
            Record { label, values: Values::Single { value: first }, padding: 0 }
        } else {
            Record { label, values: Values::Multi { first, rest: vs }, padding: 0 }
        };
        proof {
            assert(r.values_seq() =~= values.deep_view());
        }
        r
    }

    /// Renders the record to its plain, uncolored lines.
    pub fn render(&self) -> (out: Vec<String>)
        requires
            self.wf(),
            self.label@.len() + self.padding <= usize::MAX,
        ensures
            out.deep_view() == self.lines_spec(false, false),
    {
        self.render_with(false, false)
    }

    /// Renders the record under a color policy.
    pub fn render_styled(&self, policy: ColorPolicy) -> (out: Vec<String>)
        requires
            self.wf(),
            self.label@.len() + self.padding <= usize::MAX,
        ensures
            out.deep_view() == self.lines_spec(colors_labels(policy), colors_values(policy)),
    {
        self.render_with(policy.labels_colored(), policy.values_colored())
    }

    /// Renders the record, coloring the label and the values as asked.
    pub fn render_with(&self, color_label: bool, color_value: bool) -> (out: Vec<String>)
        requires
            self.wf(),
            self.label@.len() + self.padding <= usize::MAX,
        ensures
            out.deep_view() == self.lines_spec(color_label, color_value),
    {
        let ghost expected = self.lines_spec(color_label, color_value);
        let mut lead: String = if color_label {
            colorize(self.label.as_str())
        } else {
            self.label.clone()
        };
        lead.append(": ");
        let pad = spaces(self.padding);
        lead.append(pad.as_str());
        let mut out: Vec<String> = Vec::new();
        match &self.values {
            Values::Single { value } => {
                let mut line = lead;
                if color_value {
                    line.append(colorize(value.as_str()).as_str());
                } else {
                    line.append(value.as_str());
                }
                out.push(line);
                proof {
                    assert(line@ =~= expected[0]);
                    assert(out.deep_view() =~= expected);
                }
            },
            Values::Multi { first, rest } => {
                let mut line = lead;
                line.append("- ");
                if color_value {
                    line.append(colorize(first.as_str()).as_str());
                } else {
                    line.append(first.as_str());
                }
                out.push(line);
                proof {
                    assert(line@ =~= expected[0]);
                }
                let indent_n = self.label.as_str().unicode_len() + self.padding;
                let mut i: usize = 0;
                while i < rest.len()
                    invariant
                        i <= rest@.len(),
                        indent_n as nat == self.label@.len() + self.padding,
                        expected == self.lines_spec(color_label, color_value),
                        self.values == (Values::Multi { first: *first, rest: *rest }),
                        expected.len() == 1 + rest@.len(),
                        out@.len() == 1 + i,
                        forall|j: int| 0 <= j < out@.len() ==> out@[j]@ == expected[j],
                    decreases rest@.len() - i,
                {
                    let mut cont = spaces(indent_n);
                    cont.append("  - ");
                    if color_value {
                        cont.append(colorize(rest[i].as_str()).as_str());
                    } else {
                        cont.append(rest[i].as_str());
                    }
                    out.push(cont);
                    proof {
                        assert(cont@ =~= expected[1 + i as int]);
                    }
                    i = i + 1;
                }
                proof {
                    assert forall|j: int| 0 <= j < expected.len() implies out.deep_view()[j]
                        == expected[j] by {
                        assert(out.deep_view()[j] == out@[j]@);
                    }
                    assert(out.deep_view() =~= expected);
                }
            },
        }
        out
    }
}

/// In a plain multi-valued rendering, every continuation line's bullet
/// stands in exactly the same character column as the first line's bullet:
/// two columns past the end of the padded label, not under the label text.
pub proof fn lemma_bullets_align(r: Record, k: int)
    requires
        r.values matches Values::Multi { .. },
        1 <= k < r.lines_spec(false, false).len(),
    ensures
        r.lines_spec(false, false)[0][r.label@.len() + r.padding + 2] == '-',
        r.lines_spec(false, false)[k][r.label@.len() + r.padding + 2] == '-',
{
    reveal_strlit(": ");
    reveal_strlit("- ");
    reveal_strlit("  - ");
    match r.values {
        Values::Multi { first, rest } => {
            let lines = r.lines_spec(false, false);
            let lead = r.label@ + ": "@ + space_seq(r.padding as nat);
            let col = r.label@.len() + r.padding + 2;
            assert(lines[0] == lead + "- "@ + first@);
            assert(lead.len() == col);
            assert((lead + "- "@ + first@)[col as int] == "- "@[0]);
            let indent = space_seq((r.label@.len() + r.padding) as nat);
            assert(lines[k] == indent + "  - "@ + rest@[k - 1]@);
            assert((indent + "  - "@ + rest@[k - 1]@)[col as int] == "  - "@[2]);
        },
        Values::Single { .. } => {
        },
    }
}

/// The length of the longest label in the batch; zero for an empty batch.
pub open spec fn max_label_len(s: Seq<Record>) -> nat
    decreases s.len(),
{
    if s.len() == 0 {
        0
    } else {
        let m = max_label_len(s.drop_last());
        if s.last().label@.len() > m {
            s.last().label@.len()
        } else {
            m
        }
    }
}

/// No label in the batch is longer than the batch's longest label.
pub proof fn lemma_max_label_len_bound(s: Seq<Record>, i: int)
    requires
        0 <= i < s.len(),
    ensures
        s[i].label@.len() <= max_label_len(s),
    decreases s.len(),
{
    if i < s.len() - 1 {
        lemma_max_label_len_bound(s.drop_last(), i);
    }
}

/// The alignment pass: sets every record's padding to the difference between
/// the batch's longest label and the record's own label, so that
/// `label length + padding` is the same for every record of the batch and
/// equals the longest label length. Labels and values are left untouched;
/// an empty batch is left as it is.
pub fn compute_padding(records: &mut Vec<Record>)
    ensures
        final(records)@.len() == old(records)@.len(),
        forall|j: int|
            0 <= j < old(records)@.len() ==> final(records)@[j].label == old(records)@[j].label
                && final(records)@[j].values == old(records)@[j].values,
        forall|j: int|
            0 <= j < old(records)@.len() ==> final(records)@[j].padding
                + final(records)@[j].label@.len() == max_label_len(old(records)@),
        max_label_len(old(records)@) <= usize::MAX,
{
    let ghost orig = records@;
    let mut m: usize = 0;
    let mut i: usize = 0;
    while i < records.len()
        invariant
            records@ == orig,
            i <= orig.len(),
            m as nat == max_label_len(orig.take(i as int)),
        decreases orig.len() - i,
    {
        let l = records[i].label.as_str().unicode_len();
        if l > m {
            m = l;
        }
        i = i + 1;
        proof {
            assert(orig.take(i as int).drop_last() =~= orig.take(i - 1));
        }
    }
    proof {
        assert(orig.take(orig.len() as int) =~= orig);
    }
    let mut i: usize = 0;
    while i < records.len()
        invariant
            records@.len() == orig.len(),
            i <= orig.len(),
            m as nat == max_label_len(orig),
            forall|j: int| i <= j < orig.len() ==> records@[j] == orig[j],
            forall|j: int|
                0 <= j < i ==> records@[j].label == orig[j].label && records@[j].values
                    == orig[j].values,
            forall|j: int|
                0 <= j < i ==> records@[j].padding + records@[j].label@.len() == max_label_len(
                    orig,
                ),
        decreases orig.len() - i,
    {
        proof {
            lemma_max_label_len_bound(orig, i as int);
        }
        let mut r = records.remove(i);
        let l = r.label.as_str().unicode_len();
        r.padding = m - l;
        records.insert(i, r);
        i = i + 1;
    }
}

} // verus!
