//! The text of the output lines.

use vstd::prelude::*;
use vstd::string::*;

verus! {

/// The character that stands for a single decimal digit.
pub open spec fn digit_char(d: nat) -> char
    recommends
        d < 10,
{
    if d == 0 {
        '0'
    } else if d == 1 {
        '1'
    } else if d == 2 {
        '2'
    } else if d == 3 {
        '3'
    } else if d == 4 {
        '4'
    } else if d == 5 {
        '5'
    } else if d == 6 {
        '6'
    } else if d == 7 {
        '7'
    } else if d == 8 {
        '8'
    } else {
        '9'
    }
}

/// The decimal notation of `n`, most significant digit first, without leading
/// zeros; zero is written `0`.
pub open spec fn decimal(n: nat) -> Seq<char>
    decreases n,
{
    if n < 10 {
        seq![digit_char(n)]
    } else {
        decimal(n / 10).push(digit_char(n % 10))
    }
}

/// One digit as a string slice.
fn digit_str(d: u64) -> (s: &'static str)
    requires
        d < 10,
    ensures
        s@ == seq![digit_char(d as nat)],
{
    let digits = "0123456789";
    proof {
        reveal_strlit("0123456789");
    }
    let i: usize = d as usize;
    let s = digits.substring_ascii(i, i + 1);
    s
}

/// Appends the decimal notation of `n` to `out`.
pub fn push_decimal(out: &mut String, n: u64)
    ensures
        final(out)@ == old(out)@ + decimal(n as nat),
    decreases n,
{
    if n >= 10 {
        push_decimal(out, n / 10);
    }
    out.append(digit_str(n % 10));
}

/// The decimal notation of `n` as a string of its own.
pub fn decimal_string(n: u64) -> (s: String)
    ensures
        s@ == decimal(n as nat),
{
    let mut s = String::new();
    push_decimal(&mut s, n);
    s
}

/// The items of `parts` in order, with `sep` between each two neighbours.
pub open spec fn joined(parts: Seq<Seq<char>>, sep: Seq<char>) -> Seq<char>
    decreases parts.len(),
{
    if parts.len() == 0 {
        Seq::empty()
    } else if parts.len() == 1 {
        parts[0]
    } else {
        joined(parts.drop_last(), sep) + sep + parts.last()
    }
}

/// The views of a list of strings, in the same order.
pub open spec fn string_views(strings: Seq<String>) -> Seq<Seq<char>> {
    Seq::new(strings.len(), |i: int| strings[i]@)
}

/// The announcement that precedes the scan: the word `scanning`, a space, and
/// the family names separated by a comma and a space.
pub open spec fn scanning_line(names: Seq<Seq<char>>) -> Seq<char> {
    "scanning "@ + joined(names, ", "@)
}

/// The summary of one family: its name, then its three counters.
pub open spec fn summary_line(name: Seq<char>, records: nat, key_bytes: nat, value_bytes: nat) -> Seq<
    char,
> {
    name + ": records: "@ + decimal(records) + ", key size: "@ + decimal(key_bytes)
        + ", value size: "@ + decimal(value_bytes)
}

/// The three lines that close a scan, one for each total.
pub open spec fn total_lines(records: nat, key_bytes: nat, value_bytes: nat) -> Seq<Seq<char>> {
    seq![
        "total records: "@ + decimal(records),
        "total key size: "@ + decimal(key_bytes),
        "total value size: "@ + decimal(value_bytes),
    ]
}

/// The single line that reports a failed scan.
pub open spec fn failure_line(message: Seq<char>) -> Seq<char> {
    "SCAN FAILED: "@ + message
}

/// Joins `names` with a comma and a space.
pub fn join_names(names: &Vec<String>) -> (s: String)
    ensures
        s@ == joined(string_views(names@), ", "@),
{
    let mut s = String::new();
    let ghost views = string_views(names@);
    let mut i: usize = 0;
    while i < names.len()
        invariant
            i <= names.len(),
            views == string_views(names@),
            s@ == joined(views.take(i as int), ", "@),
        decreases names.len() - i,
    {
        assert(views.take(i + 1).drop_last() =~= views.take(i as int));
        if i > 0 {
            s.append(", ");
        }
        s.append(names[i].as_str());
        i = i + 1;
    }
    assert(views.take(names.len() as int) =~= views);
    s
}

/// Writes the announcement of a scan over `names`.
pub fn format_scanning(names: &Vec<String>) -> (s: String)
    ensures
        s@ == scanning_line(string_views(names@)),
{
    let mut s = String::new();
    s.append("scanning ");
    let list = join_names(names);
    s.append(list.as_str());
    s
}

/// Writes the summary of the family `name` with the given counters.
pub fn format_summary(name: &str, records: u64, key_bytes: u64, value_bytes: u64) -> (s: String)
    ensures
        s@ == summary_line(name@, records as nat, key_bytes as nat, value_bytes as nat),
{
    let mut s = String::new();
    s.append(name);
    s.append(": records: ");
    push_decimal(&mut s, records);
    s.append(", key size: ");
    push_decimal(&mut s, key_bytes);
    s.append(", value size: ");
    push_decimal(&mut s, value_bytes);
    s
}

/// Writes the three closing lines for the given totals.
pub fn format_totals(records: u64, key_bytes: u64, value_bytes: u64) -> (lines: Vec<String>)
    ensures
        string_views(lines@) == total_lines(records as nat, key_bytes as nat, value_bytes as nat),
{
    let mut first = String::new();
    first.append("total records: ");
    push_decimal(&mut first, records);
    let mut second = String::new();
    second.append("total key size: ");
    push_decimal(&mut second, key_bytes);
    let mut third = String::new();
    third.append("total value size: ");
    push_decimal(&mut third, value_bytes);
    let mut lines: Vec<String> = Vec::new();
    lines.push(first);
    lines.push(second);
    lines.push(third);
    lines
}

/// Writes the line that reports a failure with the given message.
pub fn format_failure(message: &str) -> (s: String)
    ensures
        s@ == failure_line(message@),
{
    let mut s = String::new();
    s.append("SCAN FAILED: ");
    s.append(message);
    s
}

} // verus!
