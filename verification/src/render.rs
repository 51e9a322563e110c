//! The match formatter: renders the matches the engine found as a canonical,
//! deterministic textual report — one block per match, one line per capture
//! group, and a fixed sentinel when nothing matched.

use vstd::prelude::*;
use crate::engine::CompiledMatcher;
use crate::engine::captures_of;
use crate::engine::regex_captures;

verus! {

/// The decimal digit character for `d` (meaningful for `d < 10`).
pub open spec fn dec_digit_char(d: nat) -> char {
    if d == 0 {
        '0'
    } else if d == 1 {
        '1'
    } else if d == 2 {
        '2'
    } else if d == 3 {
        '3'
    } else if d == 4 {
        '4'
    } else if d == 5 {
        '5'
    } else if d == 6 {
        '6'
    } else if d == 7 {
        '7'
    } else if d == 8 {
        '8'
    } else {
        '9'
    }
}

/// The decimal numeral of `n`, most significant digit first, without
/// leading zeros (`0` itself is the single digit `0`).
pub open spec fn dec_rep(n: nat) -> Seq<char>
    decreases n,
{
    if n < 10 {
        seq![dec_digit_char(n)]
    } else {
        dec_rep(n / 10).push(dec_digit_char(n % 10))
    }
}

/// The quoted form of text `s` as Rust's string `Debug` formatting renders
/// it: wrapped in double quotes, with quotes and backslashes
/// backslash-escaped and control and other non-printable characters written
/// as escape sequences. A function of the characters alone.
pub uninterp spec fn debug_quoted(s: Seq<char>) -> Seq<char>;

/// Relies on `str`'s `Debug` formatting (the `{:?}` rendering): the quoted,
/// escaped form of a text depends on its characters alone.
#[verifier::external_body]
fn quote_text(s: &str) -> (r: String)
    ensures
        r@ == debug_quoted(s@),
{
    format!("{:?}", s)
}

/// One capture-group line of a match block: the group index, then the
/// captured text — quoted and escaped as Rust's string `Debug` formatting
/// does — where the group participated in the match, or an explicit absence
/// marker where it did not.
pub open spec fn group_entry(i: nat, g: Option<Seq<char>>) -> Seq<char> {
    match g {
        Some(v) => "    "@ + dec_rep(i) + ": Some("@ + debug_quoted(v) + "),\n"@,
        None => "    "@ + dec_rep(i) + ": None,\n"@,
    }
}

/// The group lines for groups `0 .. k` of one match, in increasing index
/// order.
pub open spec fn entries_upto(row: Seq<Option<Seq<char>>>, k: int) -> Seq<char>
    decreases k,
{
    if k <= 0 {
        Seq::empty()
    } else {
        entries_upto(row, k - 1) + group_entry((k - 1) as nat, row[k - 1])
    }
}

/// One match block: a header, one line per capture group of the pattern
/// (group 0, the whole match, first), and a footer.
pub open spec fn match_block(row: Seq<Option<Seq<char>>>) -> Seq<char> {
    "Some(Captures({\n"@ + entries_upto(row, row.len() as int) + "})),\n"@
}

/// The blocks for matches `0 .. k`, concatenated in scan order.
pub open spec fn blocks_upto(rows: Seq<Seq<Option<Seq<char>>>>, k: int) -> Seq<char>
    decreases k,
{
    if k <= 0 {
        Seq::empty()
    } else {
        blocks_upto(rows, k - 1) + match_block(rows[k - 1])
    }
}

/// The whole report: the fixed sentinel where nothing matched, otherwise
/// one block per match, concatenated in scan order.
pub open spec fn render_report(rows: Seq<Seq<Option<Seq<char>>>>) -> Seq<char> {
    if rows.len() == 0 {
        "None"@
    } else {
        blocks_upto(rows, rows.len() as int)
    }
}

/// Law (one block per match, in scan order): where the engine reports at
/// least one match, the report is exactly the concatenation of one match
/// block per match, and the block of match `k` follows the blocks of the
/// matches before it.
pub proof fn lemma_one_block_per_match(rows: Seq<Seq<Option<Seq<char>>>>, k: int)
    requires
        0 <= k < rows.len(),
    ensures
        render_report(rows) == blocks_upto(rows, rows.len() as int),
        blocks_upto(rows, k + 1) == blocks_upto(rows, k) + match_block(rows[k]),
{
}

/// Law (every group enumerated): a match block lists exactly one entry per
/// capture group of the match, indexed from 0 in increasing order, the
/// entry of group `j` following the entries of the groups before it —
/// absent groups included.
pub proof fn lemma_block_enumerates_groups(row: Seq<Option<Seq<char>>>, j: int)
    requires
        0 <= j < row.len(),
    ensures
        match_block(row) == "Some(Captures({\n"@ + entries_upto(row, row.len() as int)
            + "})),\n"@,
        entries_upto(row, j + 1) == entries_upto(row, j) + group_entry(j as nat, row[j]),
{
}

/// The single-character string for the decimal digit `d`.
fn digit_str(d: u64) -> (r: &'static str)
    requires
        d < 10,
    ensures
        r@ == seq![dec_digit_char(d as nat)],
{
    proof {
        reveal_strlit("0");
        reveal_strlit("1");
        reveal_strlit("2");
        reveal_strlit("3");
        reveal_strlit("4");
        reveal_strlit("5");
        reveal_strlit("6");
        reveal_strlit("7");
        reveal_strlit("8");
        reveal_strlit("9");
    }
    let r: &'static str = if d == 0 {
        "0"
    } else if d == 1 {
        "1"
    } else if d == 2 {
        "2"
    } else if d == 3 {
        "3"
    } else if d == 4 {
        "4"
    } else if d == 5 {
        "5"
    } else if d == 6 {
        "6"
    } else if d == 7 {
        "7"
    } else if d == 8 {
        "8"
    } else {
        "9"
    };
    proof {
        assert(r@ =~= seq![dec_digit_char(d as nat)]);
    }
    r
}

/// Append the decimal numeral of `n` to `out`.
fn push_dec(out: &mut String, n: u64)
    ensures
        final(out)@ == old(out)@ + dec_rep(n as nat),
    decreases n,
{
    if n >= 10 {
        push_dec(out, n / 10);
        out.append(digit_str(n % 10));
        proof {
            assert(out@ =~= old(out)@ + dec_rep(n as nat));
        }
    } else {
        out.append(digit_str(n));
        proof {
            assert(out@ =~= old(out)@ + dec_rep(n as nat));
        }
    }
}

/// Append the group lines for every group of `row`, in increasing index
/// order.
fn push_entries(out: &mut String, row: &Vec<Option<String>>)
    ensures
        final(out)@ == old(out)@ + entries_upto(row.deep_view(), row@.len() as int),
{
    let ghost rd = row.deep_view();
    let mut j: usize = 0;
    proof {
        assert(rd.len() == row@.len());
        assert(out@ =~= old(out)@ + entries_upto(rd, 0));
    }
    while j < row.len()
        invariant
            j <= row@.len(),
            rd == row.deep_view(),
            out@ == old(out)@ + entries_upto(rd, j as int),
        decreases row@.len() - j,
    {
        out.append("    ");
        push_dec(out, j as u64);
        match &row[j] {
            Some(v) => {
                out.append(": Some(");
                let quoted = quote_text(v.as_str());
                out.append(quoted.as_str());
                out.append("),\n");
            },
            None => {
                out.append(": None,\n");
            },
        }
        proof {
            assert(rd[j as int] == row@[j as int].deep_view());
            assert(out@ =~= old(out)@ + entries_upto(rd, j as int + 1));
        }
        j += 1;
    }
}

/// Render the report for already-collected matches.
fn render_rows(rows: &Vec<Vec<Option<String>>>) -> (r: String)
    ensures
        r@ == render_report(rows.deep_view()),
{
    let ghost rd = rows.deep_view();
    proof {
        assert(rd.len() == rows@.len());
    }
    if rows.len() == 0 {
        let r = "None".to_owned();
        return r;
    }
    let mut out = String::new();
    let mut i: usize = 0;
    while i < rows.len()
        invariant
            i <= rows@.len(),
            rows@.len() > 0,
            rd == rows.deep_view(),
            rd.len() == rows@.len(),
            out@ == blocks_upto(rd, i as int),
        decreases rows@.len() - i,
    {
        out.append("Some(Captures({\n");
        push_entries(&mut out, &rows[i]);
        out.append("})),\n");
        proof {
            assert(rd[i as int] == rows@[i as int].deep_view());
            assert(rd[i as int].len() == rows@[i as int]@.len());
            assert(out@ =~= blocks_upto(rd, i as int + 1));
        }
        i += 1;
    }
    out
}

/// Scan `subject` with `matcher` for all non-overlapping matches, in
/// left-to-right order, and render the canonical report: one block per
/// match enumerating every capture group (present or absent), or the fixed
/// sentinel where nothing matched. Formatting never fails and is a function
/// of the pattern and subject text alone.
pub fn format_captures(matcher: &CompiledMatcher, subject: &str) -> (r: String)
    ensures
        r@ == render_report(captures_of(matcher@, subject@)),
{
    let rows = regex_captures(matcher, subject);
    render_rows(&rows)
}

} // verus!
