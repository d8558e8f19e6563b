//! Submission through `lp`: the argument list of a job, and the outcome that
//! the command's exit status and output give.

use crate::model::{
    copies_of, opt_view, width_of, OptionsModel, PrintOptions, PrintResult, ResultModel,
};
use crate::text::{back_white, chars_of, first_token, skip_white, token_end, trim};
use vstd::prelude::*;

verus! {

broadcast use vstd::string::group_string_axioms;

/// The decimal digits of `n`, most significant first, without leading zeros.
pub open spec fn decimal(n: nat) -> Seq<char>
    decreases n,
{
    if n < 10 {
        seq![digit(n)]
    } else {
        decimal(n / 10).push(digit(n % 10))
    }
}

/// The character of a digit below ten.
pub open spec fn digit(d: nat) -> char {
    if d == 0 { '0' }
    else if d == 1 { '1' }
    else if d == 2 { '2' }
    else if d == 3 { '3' }
    else if d == 4 { '4' }
    else if d == 5 { '5' }
    else if d == 6 { '6' }
    else if d == 7 { '7' }
    else if d == 8 { '8' }
    else { '9' }
}

/// The text of a digit below ten.
fn digit_text(d: u32) -> (r: &'static str)
    requires
        d < 10,
    ensures
        r@ == seq![digit(d as nat)],
{
    proof {
        reveal_strlit("0");
        reveal_strlit("1");
        reveal_strlit("2");
        reveal_strlit("3");
        reveal_strlit("4");
        reveal_strlit("5");
        reveal_strlit("6");
        reveal_strlit("7");
        reveal_strlit("8");
        reveal_strlit("9");
    }
    if d == 0 {
        "0"
    } else if d == 1 {
        "1"
    } else if d == 2 {
        "2"
    } else if d == 3 {
        "3"
    } else if d == 4 {
        "4"
    } else if d == 5 {
        "5"
    } else if d == 6 {
        "6"
    } else if d == 7 {
        "7"
    } else if d == 8 {
        "8"
    } else {
        "9"
    }
}

/// The decimal digits of `n`.
pub fn decimal_text(n: u32) -> (r: String)
    ensures
        r@ == decimal(n as nat),
    decreases n,
{
    if n < 10 {
        String::from_str(digit_text(n))
    } else {
        let mut s = decimal_text(n / 10);
        s.append(digit_text(n % 10));
        assert(s@ =~= decimal((n / 10) as nat).push(digit((n % 10) as nat)));
        s
    }
}

/// Media directive of 80 mm paper.
pub open spec fn media_80() -> Seq<char> {
    "media=Custom.80x200mm"@
}

/// Media directive of 58 mm paper.
pub open spec fn media_58() -> Seq<char> {
    "media=Custom.58x200mm"@
}

/// Arguments that select the printer: none when the default printer is meant.
pub open spec fn printer_args(o: OptionsModel) -> Seq<Seq<char>> {
    match o.printer {
        Some(p) => seq!["-d"@, p],
        None => seq![],
    }
}

/// Arguments that set the number of copies: none for a single copy.
pub open spec fn copies_args(o: OptionsModel) -> Seq<Seq<char>> {
    if copies_of(o) > 1 {
        seq!["-n"@, decimal(copies_of(o) as nat)]
    } else {
        seq![]
    }
}

/// Arguments that select the media: one of two fixed directives for 80 mm and
/// 58 mm paper, none for any other width.
pub open spec fn media_args(o: OptionsModel) -> Seq<Seq<char>> {
    if width_of(o) == 80 {
        seq!["-o"@, media_80()]
    } else if width_of(o) == 58 {
        seq!["-o"@, media_58()]
    } else {
        seq![]
    }
}

/// The arguments of `lp` that print the file at `path` with options `o`.
pub open spec fn lp_args(o: OptionsModel, path: Seq<char>) -> Seq<Seq<char>> {
    printer_args(o) + copies_args(o) + media_args(o) + seq!["-o"@, "fit-to-page"@, path]
}

/// The characters of each string of a list.
pub open spec fn strings_view(v: Seq<String>) -> Seq<Seq<char>> {
    v.map_values(|s: String| s@)
}

/// The arguments of `lp` that print the file at `path` with `options`.
pub fn build_lp_args(options: &PrintOptions, path: &str) -> (r: Vec<String>)
    ensures
        strings_view(r@) == lp_args(options@, path@),
{
    let ghost o = options@;
    let mut args: Vec<String> = Vec::new();
    match &options.printer {
        Some(p) => {
            args.push(String::from_str("-d"));
            args.push(p.clone());
        },
        None => {},
    }
    assert(strings_view(args@) =~= printer_args(o));
    let copies = options.copies_or_one();
    if copies > 1 {
        args.push(String::from_str("-n"));
        args.push(decimal_text(copies));
    }
    assert(strings_view(args@) =~= printer_args(o) + copies_args(o));
    let width = options.width_or_default();
    if width == 80 {
        args.push(String::from_str("-o"));
        args.push(String::from_str("media=Custom.80x200mm"));
    } else if width == 58 {
        args.push(String::from_str("-o"));
        args.push(String::from_str("media=Custom.58x200mm"));
    }
    assert(strings_view(args@) =~= printer_args(o) + copies_args(o) + media_args(o));
    args.push(String::from_str("-o"));
    args.push(String::from_str("fit-to-page"));
    args.push(String::from_str(path));
    assert(strings_view(args@) =~= lp_args(o, path@));
    args
}

/// The marker that precedes the job identifier in the reply of `lp`.
pub open spec fn job_marker() -> Seq<char> {
    seq!['r', 'e', 'q', 'u', 'e', 's', 't', ' ', 'i', 'd', ' ', 'i', 's', ' ']
}

/// Whether `p` occurs in `s` at position `i`.
pub open spec fn occurs_at(s: Seq<char>, p: Seq<char>, i: int) -> bool {
    0 <= i && i + p.len() <= s.len() && s.subrange(i, i + p.len()) == p
}

/// Position of the first occurrence of `p` in `s` at or after `i`, or the
/// length of `s` when there is none.
pub open spec fn first_occurrence(s: Seq<char>, p: Seq<char>, i: int) -> int
    decreases s.len() + 1 - i,
{
    if i < 0 || i + p.len() > s.len() {
        s.len() as int
    } else if occurs_at(s, p, i) {
        i
    } else {
        first_occurrence(s, p, i + 1)
    }
}

/// Job identifier in the reply of `lp`: the token after the first occurrence
/// of the marker; none when the marker or the token is missing.
pub open spec fn job_id_of(out: Seq<char>) -> Option<Seq<char>> {
    let k = first_occurrence(out, job_marker(), 0);
    if k + job_marker().len() <= out.len() {
        let t = first_token(out.subrange(k + job_marker().len(), out.len() as int));
        if t.len() > 0 {
            Some(t)
        } else {
            None
        }
    } else {
        None
    }
}

/// Message of a failed submission: the error output, trimmed, or a fixed
/// message where that is empty.
pub open spec fn failure_message(err: Seq<char>) -> Seq<char> {
    if trim(err).len() > 0 {
        trim(err)
    } else {
        "Print command failed"@
    }
}

/// The outcome of a submission whose command exited successfully or not,
/// given the job identifier it returned and its error output.
pub open spec fn outcome(exited_ok: bool, job_id: Option<Seq<char>>, err: Seq<char>) -> ResultModel {
    if exited_ok {
        ResultModel { success: true, error: None, job_id }
    } else {
        ResultModel { success: false, error: Some(failure_message(err)), job_id: None }
    }
}

/// Position of the first occurrence of `p` in `v` at or after `i`, or the
/// length of `v`.
fn find_occurrence(v: &Vec<char>, p: &Vec<char>) -> (r: usize)
    ensures
        r as int == first_occurrence(v@, p@, 0),
{
    let n = v.len();
    let mut i: usize = 0;
    while i < n && p.len() <= n - i
        invariant
            n == v@.len(),
            i <= n,
            first_occurrence(v@, p@, 0) == first_occurrence(v@, p@, i as int),
        decreases n - i,
    {
        let mut j: usize = 0;
        while j < p.len() && v[i + j] == p[j]
            invariant
                j <= p@.len(),
                i + p@.len() <= n == v@.len(),
                forall|m: int| 0 <= m < j ==> v@[i + m] == p@[m],
            decreases p@.len() - j,
        {
            j = j + 1;
        }
        if j == p.len() {
            assert(v@.subrange(i as int, i + p@.len()) =~= p@);
            return i;
        }
        assert(v@.subrange(i as int, i + p@.len())[j as int] != p@[j as int]);
        i = i + 1;
    }
    if p.len() == 0 {
        assert(v@.subrange(i as int, i as int) =~= p@);
    }
    n
}

/// Job identifier in the reply of `lp`.
pub fn parse_job_id(out: &str) -> (r: Option<String>)
    ensures
        opt_view(r) == job_id_of(out@),
{
    let v = chars_of(out);
    let marker: Vec<char> = vec!['r', 'e', 'q', 'u', 'e', 's', 't', ' ', 'i', 'd', ' ', 'i', 's', ' '];
    let n = v.len();
    let k = find_occurrence(&v, &marker);
    if k > n || n - k < marker.len() {
        return None;
    }
    let from = k + marker.len();
    let a = skip_white(&v, from, n);
    let b = token_end(&v, a, n);
    assert(v@.subrange(a as int, n as int).subrange(0, b - a) =~= v@.subrange(a as int, b as int));
    if a == b {
        None
    } else {
        Some(String::from_str(out.substring_char(a, b)))
    }
}

/// Message of a failed submission, from its error output.
pub fn failure_text(err: &str) -> (r: String)
    ensures
        r@ == failure_message(err@),
        r@.len() > 0,
{
    let v = chars_of(err);
    let n = v.len();
    let a = skip_white(&v, 0, n);
    let b = back_white(&v, a, n);
    assert(v@.subrange(0, n as int) =~= v@);
    if a == b {
        proof {
            reveal_strlit("Print command failed");
        }
        String::from_str("Print command failed")
    } else {
        String::from_str(err.substring_char(a, b))
    }
}

/// The result of a submission: successful exactly when the command exited
/// successfully, with `job_id` then; otherwise failed, with the error output
/// (or a fixed message where it is empty) and no job identifier.
pub fn submission_result(exited_ok: bool, job_id: Option<String>, err: &str) -> (r: PrintResult)
    ensures
        r@ == outcome(exited_ok, opt_view(job_id), err@),
        r.success == exited_ok,
        !r.success ==> r.error is Some && r.error->0@.len() > 0,
        r.success ==> r.error is None,
        r.job_id is Some ==> r.success,
{
    if exited_ok {
        PrintResult { success: true, error: None, job_id }
    } else {
        PrintResult { success: false, error: Some(failure_text(err)), job_id: None }
    }
}

/// The result of a submission through `lp`, from its exit status and output.
pub fn lp_result(exited_ok: bool, out: &str, err: &str) -> (r: PrintResult)
    ensures
        r@ == outcome(exited_ok, job_id_of(out@), err@),
        r.success == exited_ok,
        !r.success ==> r.error is Some && r.error->0@.len() > 0,
        r.success ==> r.error is None,
        r.job_id is Some ==> r.success,
{
    let job_id = if exited_ok {
        parse_job_id(out)
    } else {
        None
    };
    submission_result(exited_ok, job_id, err)
}

} // verus!

verus! {

/// Submission outcomes: a command that failed gives a failed result with a
/// non-empty error and no job identifier; one that succeeded gives a
/// successful result with no error.
pub proof fn lemma_outcome_shape(exited_ok: bool, job_id: Option<Seq<char>>, err: Seq<char>)
    ensures
        !exited_ok ==> !outcome(exited_ok, job_id, err).success
            && outcome(exited_ok, job_id, err).error is Some
            && outcome(exited_ok, job_id, err).error->0.len() > 0
            && outcome(exited_ok, job_id, err).job_id is None,
        exited_ok ==> outcome(exited_ok, job_id, err).success
            && outcome(exited_ok, job_id, err).error is None,
        outcome(exited_ok, job_id, err).job_id is Some ==> outcome(exited_ok, job_id, err).success,
{
    reveal_strlit("Print command failed");
}

/// Paper 80 mm wide selects the 80 mm media directive, 58 mm the 58 mm one,
/// and any other width no media directive.
pub proof fn lemma_media_selection(o: OptionsModel)
    ensures
        width_of(o) == 80 ==> media_args(o) == seq!["-o"@, media_80()],
        width_of(o) == 58 ==> media_args(o) == seq!["-o"@, media_58()],
        width_of(o) != 80 && width_of(o) != 58 ==> media_args(o) == Seq::<Seq<char>>::empty(),
        media_80() != media_58(),
{
    reveal_strlit("media=Custom.80x200mm");
    reveal_strlit("media=Custom.58x200mm");
    assert(media_80()[13] != media_58()[13]);
}

/// A single copy, asked for or by omission, adds no copies argument; more
/// copies add one whose value is their number in decimal.
pub proof fn lemma_copies_argument(o: OptionsModel)
    ensures
        (o.copies is None || o.copies == Some(1u32)) ==> copies_args(o) == Seq::<Seq<char>>::empty(),
        copies_of(o) > 1 ==> copies_args(o) == seq!["-n"@, decimal(copies_of(o) as nat)],
{
}

} // verus!
