//! Verified rendering of the reports: decimal numbers, one-decimal
//! ratios, and the human-readable report lines of both subsystems.

use vstd::prelude::*;
use vstd::string::StringExecFns;

use crate::comparator::SizeReport;
use crate::harness::GroupResult;
use crate::harness::Operation;
use crate::scheme::Variant;

verus! {

/// The character of one decimal digit.
pub open spec fn digit_char(d: nat) -> char {
    if d == 0 {
        '0'
    } else if d == 1 {
        '1'
    } else if d == 2 {
        '2'
    } else if d == 3 {
        '3'
    } else if d == 4 {
        '4'
    } else if d == 5 {
        '5'
    } else if d == 6 {
        '6'
    } else if d == 7 {
        '7'
    } else if d == 8 {
        '8'
    } else {
        '9'
    }
}

/// The usual decimal rendering of a number, most significant digit
/// first, without leading zeroes (zero itself is `"0"`).
pub open spec fn dec_digits(n: nat) -> Seq<char>
    decreases n,
{
    if n < 10 {
        seq![digit_char(n)]
    } else {
        dec_digits(n / 10).push(digit_char(n % 10))
    }
}

/// A ratio in tenths rendered with one decimal place: the integer part,
/// a point, and the tenths digit.
pub open spec fn ratio_string_spec(tenths: nat) -> Seq<char> {
    dec_digits(tenths / 10) + seq!['.', digit_char(tenths % 10)]
}

/// The one-character string of a decimal digit.
fn digit_str(d: u64) -> (s: &'static str)
    requires
        d < 10,
    ensures
        s@ == seq![digit_char(d as nat)],
{
    if d == 0 {
        proof {
            reveal_strlit("0");
            assert("0"@ =~= seq!['0']);
        }
        "0"
    } else if d == 1 {
        proof {
            reveal_strlit("1");
            assert("1"@ =~= seq!['1']);
        }
        "1"
    } else if d == 2 {
        proof {
            reveal_strlit("2");
            assert("2"@ =~= seq!['2']);
        }
        "2"
    } else if d == 3 {
        proof {
            reveal_strlit("3");
            assert("3"@ =~= seq!['3']);
        }
        "3"
    } else if d == 4 {
        proof {
            reveal_strlit("4");
            assert("4"@ =~= seq!['4']);
        }
        "4"
    } else if d == 5 {
        proof {
            reveal_strlit("5");
            assert("5"@ =~= seq!['5']);
        }
        "5"
    } else if d == 6 {
        proof {
            reveal_strlit("6");
            assert("6"@ =~= seq!['6']);
        }
        "6"
    } else if d == 7 {
        proof {
            reveal_strlit("7");
            assert("7"@ =~= seq!['7']);
        }
        "7"
    } else if d == 8 {
        proof {
            reveal_strlit("8");
            assert("8"@ =~= seq!['8']);
        }
        "8"
    } else {
        proof {
            reveal_strlit("9");
            assert("9"@ =~= seq!['9']);
        }
        "9"
    }
}

/// Render a number in decimal.
pub fn u64_to_dec(n: u64) -> (s: String)
    ensures
        s@ == dec_digits(n as nat),
    decreases n,
{
    if n < 10 {
        String::from_str(digit_str(n))
    } else {
        let mut s = u64_to_dec(n / 10);
        s.append(digit_str(n % 10));
        proof {
            assert(s@ =~= dec_digits(n as nat));
        }
        s
    }
}

/// Render a tenths ratio with one decimal place.
pub fn format_ratio_tenths(t: u64) -> (s: String)
    ensures
        s@ == ratio_string_spec(t as nat),
{
    let mut s = u64_to_dec(t / 10);
    s.append(".");
    s.append(digit_str(t % 10));
    proof {
        reveal_strlit(".");
        assert("."@ =~= seq!['.']);
        assert(s@ =~= ratio_string_spec(t as nat));
    }
    s
}

/// The display label of a variant.
pub open spec fn label_spec(v: Variant) -> Seq<char> {
    match v {
        Variant::EcdsaK256 => "ECDSA (baseline)"@,
        Variant::MlDsa44 => "ML-DSA-44"@,
        Variant::MlDsa65 => "ML-DSA-65"@,
        Variant::MlDsa87 => "ML-DSA-87"@,
        Variant::SlhDsa128s => "SLH-DSA-128s"@,
        Variant::SlhDsa128f => "SLH-DSA-128f"@,
        Variant::SlhDsa192s => "SLH-DSA-192s"@,
        Variant::SlhDsa192f => "SLH-DSA-192f"@,
        Variant::SlhDsa256s => "SLH-DSA-256s"@,
        Variant::SlhDsa256f => "SLH-DSA-256f"@,
    }
}

/// The display label of a variant.
pub fn variant_label(v: Variant) -> (s: String)
    ensures
        s@ == label_spec(v),
{
    match v {
        Variant::EcdsaK256 => String::from_str("ECDSA (baseline)"),
        Variant::MlDsa44 => String::from_str("ML-DSA-44"),
        Variant::MlDsa65 => String::from_str("ML-DSA-65"),
        Variant::MlDsa87 => String::from_str("ML-DSA-87"),
        Variant::SlhDsa128s => String::from_str("SLH-DSA-128s"),
        Variant::SlhDsa128f => String::from_str("SLH-DSA-128f"),
        Variant::SlhDsa192s => String::from_str("SLH-DSA-192s"),
        Variant::SlhDsa192f => String::from_str("SLH-DSA-192f"),
        Variant::SlhDsa256s => String::from_str("SLH-DSA-256s"),
        Variant::SlhDsa256f => String::from_str("SLH-DSA-256f"),
    }
}

/// The display label of an operation, as its benchmark group names it.
pub open spec fn op_label_spec(op: Operation) -> Seq<char> {
    match op {
        Operation::KeyGen => "key_gen"@,
        Operation::Sign => "sign"@,
        Operation::Verify => "verify"@,
    }
}

/// The display label of an operation.
pub fn operation_label(op: Operation) -> (s: String)
    ensures
        s@ == op_label_spec(op),
{
    match op {
        Operation::KeyGen => String::from_str("key_gen"),
        Operation::Sign => String::from_str("sign"),
        Operation::Verify => String::from_str("verify"),
    }
}

/// The heading line of the size report.
pub open spec fn size_header_spec() -> Seq<char> {
    "=== Size Comparisons ==="@
}

/// A variant's heading line in the size report.
pub open spec fn label_line_spec(v: Variant) -> Seq<char> {
    label_spec(v) + ":"@
}

/// A baseline artifact line: its name and length in bytes.
pub open spec fn bytes_line_spec(name: Seq<char>, len: nat) -> Seq<char> {
    name + dec_digits(len) + " bytes"@
}

/// A variant artifact line: its name, length in bytes, and ratio to the
/// baseline with one decimal place.
pub open spec fn ratio_line_spec(name: Seq<char>, len: nat, tenths: nat) -> Seq<char> {
    name + dec_digits(len) + " bytes ("@ + ratio_string_spec(tenths) + "x baseline)"@
}

/// The artifact-name prefix of a public-key line.
pub open spec fn pk_name_spec() -> Seq<char> {
    "  Public Key: "@
}

/// The artifact-name prefix of a signature line.
pub open spec fn sig_name_spec() -> Seq<char> {
    "  Signature: "@
}

/// A variant's heading line.
fn render_label_line(v: Variant) -> (s: String)
    ensures
        s@ == label_line_spec(v),
{
    let mut s = variant_label(v);
    s.append(":");
    s
}

/// A baseline artifact line.
fn render_bytes_line(name: &str, len: u64) -> (s: String)
    ensures
        s@ == bytes_line_spec(name@, len as nat),
{
    let mut s = String::from_str(name);
    s.append(u64_to_dec(len).as_str());
    s.append(" bytes");
    proof {
        assert(s@ =~= bytes_line_spec(name@, len as nat));
    }
    s
}

/// A variant artifact line with its ratio to the baseline.
fn render_ratio_line(name: &str, len: u64, tenths: u64) -> (s: String)
    ensures
        s@ == ratio_line_spec(name@, len as nat, tenths as nat),
{
    let mut s = String::from_str(name);
    s.append(u64_to_dec(len).as_str());
    s.append(" bytes (");
    s.append(format_ratio_tenths(tenths).as_str());
    s.append("x baseline)");
    proof {
        assert(s@ =~= ratio_line_spec(name@, len as nat, tenths as nat));
    }
    s
}

/// Row `j` of the size report body describes record `j`: its label
/// line, its public-key ratio line and its signature ratio line.
pub open spec fn row_ok(lines: Seq<String>, records: Seq<crate::comparator::SizeRecord>, j: int) -> bool {
    &&& lines[4 + 3 * j]@ == label_line_spec(records[j].variant)
    &&& lines[4 + 3 * j + 1]@ == ratio_line_spec(
        pk_name_spec(),
        records[j].pk_len as nat,
        records[j].pk_ratio_tenths as nat,
    )
    &&& lines[4 + 3 * j + 2]@ == ratio_line_spec(
        sig_name_spec(),
        records[j].sig_len as nat,
        records[j].sig_ratio_tenths as nat,
    )
}

/// The first `n` records each have their three report lines in place.
pub open spec fn rows_ok(lines: Seq<String>, records: Seq<crate::comparator::SizeRecord>, n: int) -> bool {
    forall|j: int| 0 <= j < n ==> #[trigger] row_ok(lines, records, j)
}

/// Render the size-comparison report: the heading, the baseline's label
/// and two length lines, then for every record its label line, its
/// public-key line and its signature line, in report order.
pub fn render_size_report(rep: &SizeReport) -> (lines: Vec<String>)
    ensures
        lines@.len() == 4 + 3 * rep.records@.len(),
        lines@[0]@ == size_header_spec(),
        lines@[1]@ == label_line_spec(Variant::EcdsaK256),
        lines@[2]@ == bytes_line_spec(pk_name_spec(), rep.baseline.pk_len as nat),
        lines@[3]@ == bytes_line_spec(sig_name_spec(), rep.baseline.sig_len as nat),
        rows_ok(lines@, rep.records@, rep.records@.len() as int),
{
    let mut lines: Vec<String> = Vec::new();
    lines.push(String::from_str("=== Size Comparisons ==="));
    lines.push(render_label_line(Variant::EcdsaK256));
    lines.push(render_bytes_line("  Public Key: ", rep.baseline.pk_len));
    lines.push(render_bytes_line("  Signature: ", rep.baseline.sig_len));
    let mut i: usize = 0;
    while i < rep.records.len()
        invariant
            0 <= i <= rep.records@.len(),
            lines@.len() == 4 + 3 * i,
            lines@[0]@ == size_header_spec(),
            lines@[1]@ == label_line_spec(Variant::EcdsaK256),
            lines@[2]@ == bytes_line_spec(pk_name_spec(), rep.baseline.pk_len as nat),
            lines@[3]@ == bytes_line_spec(sig_name_spec(), rep.baseline.sig_len as nat),
            rows_ok(lines@, rep.records@, i as int),
        decreases rep.records@.len() - i,
    {
        let rec = &rep.records[i];
        let ghost old_lines = lines@;
        let la = render_label_line(rec.variant);
        let lb = render_ratio_line("  Public Key: ", rec.pk_len, rec.pk_ratio_tenths);
        let lc = render_ratio_line("  Signature: ", rec.sig_len, rec.sig_ratio_tenths);
        let ghost la_view = la@;
        let ghost lb_view = lb@;
        let ghost lc_view = lc@;
        lines.push(la);
        lines.push(lb);
        lines.push(lc);
        proof {
            assert(lines@[old_lines.len() as int]@ == la_view);
            assert(lines@[old_lines.len() as int + 1]@ == lb_view);
            assert(lines@[old_lines.len() as int + 2]@ == lc_view);
            assert forall|j: int| 0 <= j < i + 1 implies row_ok(
                lines@,
                rep.records@,
                j,
            ) by {
                if j < i {
                    assert(row_ok(old_lines, rep.records@, j));
                    assert(4 + 3 * j + 2 < old_lines.len());
                    assert(lines@[4 + 3 * j] == old_lines[4 + 3 * j]);
                    assert(lines@[4 + 3 * j + 1] == old_lines[4 + 3 * j + 1]);
                    assert(lines@[4 + 3 * j + 2] == old_lines[4 + 3 * j + 2]);
                } else {
                    assert(j == i);
                    assert(4 + 3 * j == old_lines.len());
                    assert(lines@[4 + 3 * j]@ == la_view);
                    assert(lines@[4 + 3 * j + 1]@ == lb_view);
                    assert(lines@[4 + 3 * j + 2]@ == lc_view);
                }
            }
            assert(rows_ok(lines@, rep.records@, i + 1));
        }
        i = i + 1;
    }
    lines
}

/// A benchmark group's report line: variant and operation labels, the
/// mean latency in nanoseconds, the sample count, and how many samples
/// were classified outliers.
pub open spec fn group_line_spec(g: GroupResult) -> Seq<char> {
    label_spec(g.variant) + "/"@ + op_label_spec(g.operation) + ": mean "@ + dec_digits(
        g.summary.mean_nanos as nat,
    ) + " ns over "@ + dec_digits(g.summary.count as nat) + " samples, "@ + dec_digits(
        g.summary.outliers as nat,
    ) + " outliers"@
}

/// Render one benchmark group's report line.
pub fn render_group_line(g: &GroupResult) -> (s: String)
    ensures
        s@ == group_line_spec(*g),
{
    let mut s = variant_label(g.variant);
    s.append("/");
    s.append(operation_label(g.operation).as_str());
    s.append(": mean ");
    s.append(u64_to_dec(g.summary.mean_nanos).as_str());
    s.append(" ns over ");
    s.append(u64_to_dec(g.summary.count).as_str());
    s.append(" samples, ");
    s.append(u64_to_dec(g.summary.outliers).as_str());
    s.append(" outliers");
    proof {
        assert(s@ =~= group_line_spec(*g));
    }
    s
}

/// Render the full benchmark report, one line per measurement group, in
/// group order.
pub fn render_bench_report(gs: &Vec<GroupResult>) -> (lines: Vec<String>)
    ensures
        lines@.len() == gs@.len(),
        forall|i: int| 0 <= i < gs@.len() ==> #[trigger] lines@[i]@ == group_line_spec(gs@[i]),
{
    let mut lines: Vec<String> = Vec::new();
    let mut i: usize = 0;
    while i < gs.len()
        invariant
            0 <= i <= gs@.len(),
            lines@.len() == i,
            forall|j: int| 0 <= j < i ==> #[trigger] lines@[j]@ == group_line_spec(gs@[j]),
        decreases gs@.len() - i,
    {
        lines.push(render_group_line(&gs[i]));
        i = i + 1;
    }
    lines
}

} // verus!
