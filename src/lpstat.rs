//! Printer lists from the line-oriented replies of `lpstat`.
//!
//! `lpstat -d` answers with one line whose text after the first colon names
//! the default printer. `lpstat -p` answers with one line per printer that
//! starts with the word `printer`, followed by the printer's name and its
//! state in words.

use crate::model::{opt_view, printers_view, PrinterInfo, PrinterModel};
use crate::text::{
    after_first, after_token, back_white, chars_of, contains, contains_in, find_char,
    first_token, is_white, lemma_len_before_bound, lines, nth_token, skip_white, starts_with,
    token_end, token_len, trim, trim_start,
};
use vstd::prelude::*;

verus! {

broadcast use vstd::string::group_string_axioms;

/// The marker that opens a printer record.
pub open spec fn record_marker() -> Seq<char> {
    seq!['p', 'r', 'i', 'n', 't', 'e', 'r', ' ']
}

/// Name of the default printer in a reply of `lpstat -d`: the text after the
/// first colon, trimmed; empty when the reply holds no colon.
pub open spec fn default_printer_name(out: Seq<char>) -> Seq<char> {
    match after_first(out, ':') {
        Some(rest) => trim(rest),
        None => seq![],
    }
}

/// Name field of a record line: its second white-space-delimited token, the
/// first being the marker word.
pub open spec fn record_name(line: Seq<char>) -> Seq<char> {
    first_token(line.subrange(record_marker().len() as int, line.len() as int))
}

/// Whether a line is a printer record: it starts with the marker and names a
/// printer after it.
pub open spec fn is_record(line: Seq<char>) -> bool {
    starts_with(line, record_marker()) && record_name(line).len() > 0
}

/// Status of a record line: the first word of the vocabulary that occurs in it.
pub open spec fn status_of(line: Seq<char>) -> Option<Seq<char>> {
    if contains(line, seq!['i', 'd', 'l', 'e']) {
        Some(seq!['i', 'd', 'l', 'e'])
    } else if contains(line, seq!['p', 'r', 'i', 'n', 't', 'i', 'n', 'g']) {
        Some(seq!['p', 'r', 'i', 'n', 't', 'i', 'n', 'g'])
    } else {
        None
    }
}

/// The printer that a record line describes, given the default printer's name.
pub open spec fn record_of(line: Seq<char>, default_name: Seq<char>) -> PrinterModel {
    PrinterModel {
        name: record_name(line),
        is_default: record_name(line) == default_name,
        description: None,
        status: status_of(line),
    }
}

/// What one line contributes to the printer list.
pub open spec fn line_record(line: Seq<char>, default_name: Seq<char>) -> Option<PrinterModel> {
    if is_record(line) {
        Some(record_of(line, default_name))
    } else {
        None
    }
}

/// The printers that a list of lines describes, in order.
pub open spec fn records(ls: Seq<Seq<char>>, default_name: Seq<char>) -> Seq<PrinterModel>
    decreases ls.len(),
{
    if ls.len() == 0 {
        seq![]
    } else {
        let head = match line_record(ls[0], default_name) {
            Some(p) => seq![p],
            None => seq![],
        };
        head + records(ls.drop_first(), default_name)
    }
}

/// The printers of a reply of `lpstat -p`.
pub open spec fn printer_list(out: Seq<char>, default_name: Seq<char>) -> Seq<PrinterModel> {
    records(lines(out), default_name)
}

/// Name of the default printer in a reply of `lpstat -d`.
pub fn parse_default_printer(out: &str) -> (r: String)
    ensures
        r@ == default_printer_name(out@),
{
    let v = chars_of(out);
    let n = v.len();
    let k = find_char(&v, 0, n, ':');
    proof {
        assert(v@.subrange(0, n as int) =~= v@);
        lemma_len_before_bound(v@, ':');
    }
    if k == n {
        return String::new();
    }
    let a = skip_white(&v, k + 1, n);
    let b = back_white(&v, a, n);
    proof {
        assert(after_first(out@, ':') == Some(v@.subrange(k + 1, n as int)));
    }
    let r = String::from_str(out.substring_char(a, b));
    r
}

/// Whether `v[from..to]` starts with `p`.
fn has_prefix(v: &Vec<char>, from: usize, to: usize, p: &Vec<char>) -> (r: bool)
    requires
        from <= to <= v@.len(),
    ensures
        r == starts_with(v@.subrange(from as int, to as int), p@),
{
    if p.len() > to - from {
        return false;
    }
    let mut j: usize = 0;
    while j < p.len()
        invariant
            j <= p@.len(),
            from + p@.len() <= to <= v@.len(),
            forall|m: int| 0 <= m < j ==> v@[from + m] == p@[m],
        decreases p@.len() - j,
    {
        if v[from + j] != p[j] {
            assert(v@.subrange(from as int, to as int).subrange(0, p@.len() as int)[j as int]
                != p@[j as int]);
            return false;
        }
        j = j + 1;
    }
    assert(v@.subrange(from as int, to as int).subrange(0, p@.len() as int) =~= p@);
    true
}

/// The printer that the line `v[from..to]` describes, if it is a record; `src`
/// is the text whose characters `v` holds.
fn record_at(v: &Vec<char>, src: &str, from: usize, to: usize, default_name: &String) -> (r:
    Option<PrinterInfo>)
    requires
        v@ == src@,
        from <= to <= v@.len(),
    ensures
        match r {
            Some(p) => line_record(v@.subrange(from as int, to as int), default_name@) == Some(
                p@,
            ),
            None => line_record(v@.subrange(from as int, to as int), default_name@) is None,
        },
{
    let ghost line = v@.subrange(from as int, to as int);
    let marker: Vec<char> = vec!['p', 'r', 'i', 'n', 't', 'e', 'r', ' '];
    if !has_prefix(v, from, to, &marker) {
        return None;
    }
    let a = skip_white(v, from + 8, to);
    let b = token_end(v, a, to);
    proof {
        assert(line.subrange(8, line.len() as int) =~= v@.subrange(from + 8, to as int));
        assert(v@.subrange(a as int, to as int).subrange(0, b - a) =~= v@.subrange(
            a as int,
            b as int,
        ));
    }
    if b == a {
        return None;
    }
    let name = String::from_str(src.substring_char(a, b));
    assert(name@ == record_name(line));
    let is_default = name == *default_name;
    let idle: Vec<char> = vec!['i', 'd', 'l', 'e'];
    let printing: Vec<char> = vec!['p', 'r', 'i', 'n', 't', 'i', 'n', 'g'];
    let status = if contains_in(v, from, to, &idle) {
        proof {
            reveal_strlit("idle");
        }
        Some(String::from_str("idle"))
    } else if contains_in(v, from, to, &printing) {
        proof {
            reveal_strlit("printing");
        }
        Some(String::from_str("printing"))
    } else {
        None
    };
    assert(opt_view(status) == status_of(line));
    let p = PrinterInfo { name, is_default, description: None, status };
    assert(p@ == record_of(line, default_name@));
    Some(p)
}

/// The printer that one line of a reply of `lpstat -p` describes, if the line
/// is a printer record.
pub fn parse_printer_line(line: &str, default_name: &String) -> (r: Option<PrinterInfo>)
    ensures
        match r {
            Some(p) => line_record(line@, default_name@) == Some(p@),
            None => line_record(line@, default_name@) is None,
        },
{
    let v = chars_of(line);
    let n = v.len();
    proof {
        assert(v@.subrange(0, n as int) =~= v@);
    }
    record_at(&v, line, 0, n, default_name)
}

/// The printers of a reply of `lpstat -p`, in the order of their lines, with
/// the one named `default_name` marked as default.
pub fn parse_printers(out: &str, default_name: &String) -> (r: Vec<PrinterInfo>)
    ensures
        printers_view(r@) == printer_list(out@, default_name@),
{
    let v = chars_of(out);
    let n = v.len();
    let mut acc: Vec<PrinterInfo> = Vec::new();
    let mut pos: usize = 0;
    proof {
        assert(v@.subrange(0, n as int) =~= v@);
    }
    while pos < n
        invariant
            pos <= n == v@.len(),
            v@ == out@,
            printers_view(acc@) + records(lines(v@.subrange(pos as int, n as int)), default_name@)
                == printer_list(out@, default_name@),
        decreases n - pos,
    {
        let ghost rest = v@.subrange(pos as int, n as int);
        let e = find_char(&v, pos, n, '\n');
        proof {
            lemma_len_before_bound(rest, '\n');
            assert(rest.subrange(0, e - pos) =~= v@.subrange(pos as int, e as int));
        }
        let rec = record_at(&v, out, pos, e, default_name);
        let ghost before = printers_view(acc@);
        let next = if e < n {
            e + 1
        } else {
            n
        };
        proof {
            if e < n {
                assert(rest.subrange(e - pos + 1, rest.len() as int) =~= v@.subrange(
                    e + 1,
                    n as int,
                ));
            } else {
                assert(rest =~= v@.subrange(pos as int, e as int));
                assert(v@.subrange(n as int, n as int) =~= Seq::<char>::empty());
            }
            let ls = lines(rest);
            assert(ls.drop_first() == lines(v@.subrange(next as int, n as int)));
        }
        match rec {
            Some(p) => {
                acc.push(p);
                proof {
                    assert(printers_view(acc@) =~= before + seq![p@]);
                }
            },
            None => {},
        }
        pos = next;
    }
    proof {
        assert(v@.subrange(n as int, n as int) =~= Seq::<char>::empty());
        assert(lines(Seq::<char>::empty()) == Seq::<Seq<char>>::empty());
        assert(printers_view(acc@) + Seq::<PrinterModel>::empty() =~= printers_view(acc@));
    }
    acc
}

} // verus!

verus! {

/// A reply none of whose lines is a printer record, an empty reply among
/// them, lists no printers.
pub proof fn lemma_no_record_lines_no_printers(out: Seq<char>, default_name: Seq<char>)
    requires
        forall|i: int| 0 <= i < lines(out).len() ==> !is_record(#[trigger] lines(out)[i]),
    ensures
        printer_list(out, default_name) == Seq::<PrinterModel>::empty(),
{
    lemma_records_of_non_records(lines(out), default_name);
}

proof fn lemma_records_of_non_records(ls: Seq<Seq<char>>, default_name: Seq<char>)
    requires
        forall|i: int| 0 <= i < ls.len() ==> !is_record(#[trigger] ls[i]),
    ensures
        records(ls, default_name) == Seq::<PrinterModel>::empty(),
    decreases ls.len(),
{
    if ls.len() > 0 {
        assert forall|i: int| 0 <= i < ls.drop_first().len() implies !is_record(
            #[trigger] ls.drop_first()[i],
        ) by {
            assert(ls.drop_first()[i] == ls[i + 1]);
        }
        assert(!is_record(ls[0]));
        lemma_records_of_non_records(ls.drop_first(), default_name);
        assert(records(ls, default_name) =~= Seq::<PrinterModel>::empty());
    }
}

/// The printer of a record line is named by the line's second
/// white-space-delimited token, and is the default printer exactly when that
/// name equals the default printer's name, character for character.
pub proof fn lemma_record_name_and_default(line: Seq<char>, default_name: Seq<char>)
    requires
        is_record(line),
    ensures
        line_record(line, default_name) is Some,
        line_record(line, default_name)->0.name == nth_token(line, 1),
        line_record(line, default_name)->0.is_default <==> nth_token(line, 1) == default_name,
{
    lemma_record_name_is_second_token(line);
}

/// On a line that starts with the marker, the name field is the line's second
/// white-space-delimited token.
pub proof fn lemma_record_name_is_second_token(line: Seq<char>)
    requires
        starts_with(line, record_marker()),
    ensures
        record_name(line) == nth_token(line, 1),
{
    let m = record_marker();
    assert forall|i: int| 0 <= i < 8 implies line[i] == m[i] by {
        assert(line.subrange(0, 8)[i] == line[i]);
    }
    assert(!is_white(line[0]));
    assert(trim_start(line) == line);
    reveal_with_fuel(token_len, 9);
    let s1 = line.drop_first();
    let s2 = s1.drop_first();
    let s3 = s2.drop_first();
    let s4 = s3.drop_first();
    let s5 = s4.drop_first();
    let s6 = s5.drop_first();
    let s7 = s6.drop_first();
    assert(s1[0] == line[1] && s2[0] == line[2] && s3[0] == line[3] && s4[0] == line[4]);
    assert(s5[0] == line[5] && s6[0] == line[6] && s7[0] == line[7]);
    assert(token_len(s7) == 0);
    assert(token_len(line) == 7);
    let rest = line.subrange(7, line.len() as int);
    assert(after_token(line) == rest);
    assert(rest[0] == ' ');
    assert(rest.drop_first() =~= line.subrange(8, line.len() as int));
    assert(trim_start(rest) == trim_start(rest.drop_first()));
    assert(nth_token(after_token(line), 0) == first_token(after_token(line)));
    assert(nth_token(line, 1) == nth_token(after_token(line), 0));
}

} // verus!

verus! {

/// The printers that the replies of `lpstat -d` and `lpstat -p` describe:
/// those of the list, with the one named by the first reply marked default.
pub fn printers_from_lpstat(default_reply: &str, list_reply: &str) -> (r: Vec<PrinterInfo>)
    ensures
        printers_view(r@) == printer_list(list_reply@, default_printer_name(default_reply@)),
{
    let default_name = parse_default_printer(default_reply);
    parse_printers(list_reply, &default_name)
}

} // verus!
