//! The one parameterized pipeline: a batch of records, a user and host
//! name, and a color policy go in; the aligned, colorized info column is
//! built, merged with the styled logo column, and the final printable rows
//! come out.

use vstd::prelude::*;

use crate::compose::{compose, compose_text};
use crate::header::{header_text, make_header, underline_for, underline_text};
use crate::logo::{styled_logo_lines, styled_logo_rows, LOGO_WIDTH};
use crate::record::{compute_padding, max_label_len, Record};
use crate::style::{colors_labels, colors_values, ColorPolicy};

verus! {

/// The batch after the alignment pass: labels and values unchanged, every
/// padding set to the gap between the batch's longest label and the
/// record's own label.
pub open spec fn padded_records(records: Seq<Record>) -> Seq<Record> {
    Seq::new(
        records.len(),
        |i: int|
            Record {
                label: records[i].label,
                values: records[i].values,
                padding: (max_label_len(records) - records[i].label@.len()) as usize,
            },
    )
}

/// The rendered lines of a batch of records, in order.
pub open spec fn records_lines(records: Seq<Record>, cl: bool, cv: bool) -> Seq<Seq<char>>
    decreases records.len(),
{
    if records.len() == 0 {
        Seq::empty()
    } else {
        records_lines(records.drop_last(), cl, cv) + records.last().lines_spec(cl, cv)
    }
}

/// The whole info column: the colored header, its underline, then the
/// lines of the aligned records under the policy.
pub open spec fn info_text(
    user: Seq<char>,
    host: Seq<char>,
    records: Seq<Record>,
    policy: ColorPolicy,
) -> Seq<Seq<char>> {
    seq![header_text(user, host), underline_text(user, host)] + records_lines(
        padded_records(records),
        colors_labels(policy),
        colors_values(policy),
    )
}

/// The whole report: the styled logo column merged with the info column.
pub open spec fn report_text(
    user: Seq<char>,
    host: Seq<char>,
    records: Seq<Record>,
    policy: ColorPolicy,
) -> Seq<Seq<char>> {
    compose_text(styled_logo_rows(), 32, info_text(user, host, records, policy))
}

/// Builds the info column: header, underline, and every record's lines
/// after one shared alignment pass.
pub fn render_info(user: &str, host: &str, records: Vec<Record>, policy: ColorPolicy) -> (out: Vec<
    String,
>)
    requires
        forall|i: int| 0 <= i < records@.len() ==> records@[i].wf(),
        user@.len() + host@.len() + 1 <= usize::MAX,
    ensures
        out.deep_view() == info_text(user@, host@, records@, policy),
{
    let ghost orig = records@;
    let ghost cl = colors_labels(policy);
    let ghost cv = colors_values(policy);
    let mut recs = records;
    compute_padding(&mut recs);
    proof {
        assert forall|j: int| 0 <= j < orig.len() implies recs@[j] == padded_records(orig)[j] by {
            assert(recs@[j].padding as nat == max_label_len(orig) - recs@[j].label@.len());
        }
        assert(recs@ =~= padded_records(orig));
    }
    let ghost prs = padded_records(orig);
    let mut out: Vec<String> = Vec::new();
    out.push(make_header(user, host));
    out.push(underline_for(user, host));
    let mut i: usize = 0;
    while i < recs.len()
        invariant
            i <= recs@.len(),
            recs@ == prs,
            prs == padded_records(orig),
            prs.len() == orig.len(),
            cl == colors_labels(policy),
            cv == colors_values(policy),
            forall|k: int| 0 <= k < orig.len() ==> orig[k].wf(),
            max_label_len(orig) <= usize::MAX,
            user@.len() + host@.len() + 1 <= usize::MAX,
            out@.len() == 2 + records_lines(prs.take(i as int), cl, cv).len(),
            forall|j: int|
                0 <= j < out@.len() ==> out@[j]@ == (seq![
                    header_text(user@, host@),
                    underline_text(user@, host@),
                ] + records_lines(prs.take(i as int), cl, cv))[j],
        decreases recs@.len() - i,
    {
        proof {
            crate::record::lemma_max_label_len_bound(orig, i as int);
            assert(prs[i as int].label == orig[i as int].label);
            assert(prs[i as int].wf());
            assert(prs[i as int].padding + prs[i as int].label@.len() == max_label_len(orig));
        }
        let mut lines = recs[i].render_styled(policy);
        let ghost lv = lines@;
        let ghost ldv = lines.deep_view();
        let ghost prev = out@;
        out.append(&mut lines);
        i = i + 1;
        proof {
            let t = prs.take(i as int);
            let pre = seq![header_text(user@, host@), underline_text(user@, host@)];
            let a = records_lines(prs.take(i - 1), cl, cv);
            let b = prs[i - 1].lines_spec(cl, cv);
            assert(t.drop_last() =~= prs.take(i - 1));
            assert(t.last() == prs[i - 1]);
            assert(records_lines(t, cl, cv) == a + b);
            let built = pre + records_lines(t, cl, cv);
            assert(out@ == prev + lv);
            assert(prev.len() == pre.len() + a.len());
            assert forall|j: int| 0 <= j < out@.len() implies out@[j]@ == built[j] by {
                if j < prev.len() {
                    assert(out@[j] == prev[j]);
                    assert(prev[j]@ == (pre + a)[j]);
                    if j < pre.len() {
                        assert((pre + a)[j] == pre[j]);
                        assert(built[j] == pre[j]);
                    } else {
                        assert((pre + a)[j] == a[j - pre.len()]);
                        assert(built[j] == (a + b)[j - pre.len()]);
                        assert((a + b)[j - pre.len()] == a[j - pre.len()]);
                    }
                } else {
                    assert(out@[j] == lv[j - prev.len()]);
                    assert(ldv == b);
                    assert(ldv[j - prev.len()] == lv[j - prev.len()]@);
                    assert(built[j] == (a + b)[j - pre.len()]);
                    assert((a + b)[j - pre.len()] == b[j - pre.len() - a.len()]);
                }
            }
        }
    }
    proof {
        assert(prs.take(prs.len() as int) =~= prs);
        let built = seq![header_text(user@, host@), underline_text(user@, host@)] + records_lines(
            prs,
            cl,
            cv,
        );
        assert forall|j: int| 0 <= j < built.len() implies out.deep_view()[j] == built[j] by {
            assert(out.deep_view()[j] == out@[j]@);
        }
        assert(out.deep_view() =~= info_text(user@, host@, orig, policy));
    }
    out
}

/// Builds the whole report: the info column of the records beside the
/// styled logo, merged by the compositor.
pub fn render_report(user: &str, host: &str, records: Vec<Record>, policy: ColorPolicy) -> (out:
    Vec<String>)
    requires
        forall|i: int| 0 <= i < records@.len() ==> records@[i].wf(),
        user@.len() + host@.len() + 1 <= usize::MAX,
    ensures
        out.deep_view() == report_text(user@, host@, records@, policy),
{
    let logo = styled_logo_lines();
    let info = render_info(user, host, records, policy);
    compose(&logo, LOGO_WIDTH, &info)
}

} // verus!
