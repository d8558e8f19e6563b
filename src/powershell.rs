//! Printing through PowerShell: the HTML document that carries the payload
//! and the script that prints it.

use crate::lp::{decimal, decimal_text};
use crate::model::{copies_of, width_of, OptionsModel, PrintOptions};
use crate::text::chars_of;
use vstd::prelude::*;

verus! {

broadcast use vstd::string::group_string_axioms;

/// Opening of the styled document, up to the page width.
pub const PAGE_HEAD: &'static str = "<!DOCTYPE html>\n<html>\n<head>\n<style>\n@page {\n    size: ";

/// Text between the page width and the body width.
pub const PAGE_BODY_WIDTH: &'static str = "mm auto;\n    margin: 0;\n}\n@media print {\n    body {\n        width: ";

/// Text between the body width and the payload.
pub const PAGE_OPEN_BODY: &'static str = "mm;\n        margin: 0;\n        padding: 2mm;\n    }\n}\n</style>\n</head>\n<body>\n";

/// Closing of the styled document, after the payload.
pub const PAGE_TAIL: &'static str = "\n</body>\n</html>";

/// Script that prints to a named printer, up to the file's path.
pub const TARGETED_HEAD: &'static str = "\n            $ie = New-Object -ComObject InternetExplorer.Application\n            $ie.Visible = $false\n            $ie.Navigate(\"";

/// Targeted script between the path and the number of copies.
pub const TARGETED_COPIES: &'static str = "\")\n            while ($ie.Busy) { Start-Sleep -Milliseconds 100 }\n            for ($i = 0; $i -lt ";

/// Targeted script after the number of copies.
pub const TARGETED_TAIL: &'static str = "; $i++) {\n                $ie.ExecWB(6, 2)\n            }\n            Start-Sleep -Seconds 2\n            $ie.Quit()\n            ";

/// Script that prints with the default printer, up to the file's path.
pub const DEFAULT_HEAD: &'static str = "\n            Start-Process -FilePath \"";

/// Default-printer script after the path.
pub const DEFAULT_TAIL: &'static str = "\" -Verb Print -Wait\n            ";

/// `s` with each backslash doubled.
pub open spec fn escape_backslashes(s: Seq<char>) -> Seq<char>
    decreases s.len(),
{
    if s.len() == 0 {
        seq![]
    } else {
        escape_backslashes(s.drop_last()) + escaped_char(s.last())
    }
}

/// How one character stands in an escaped text.
pub open spec fn escaped_char(c: char) -> Seq<char> {
    if c == '\\' {
        seq!['\\', '\\']
    } else {
        seq![c]
    }
}

/// The document that carries a payload, sized for paper `width` mm wide.
pub open spec fn styled_page(html: Seq<char>, width: u32) -> Seq<char> {
    PAGE_HEAD@ + decimal(width as nat) + PAGE_BODY_WIDTH@ + decimal(width as nat) + PAGE_OPEN_BODY@
        + html + PAGE_TAIL@
}

/// The script that prints the file at `path` with options `o`: through an
/// automation object, once per copy, when a printer is named; through the
/// file's print verb otherwise.
pub open spec fn print_script_of(o: OptionsModel, path: Seq<char>) -> Seq<char> {
    if o.printer is Some {
        TARGETED_HEAD@ + escape_backslashes(path) + TARGETED_COPIES@ + decimal(copies_of(o) as nat)
            + TARGETED_TAIL@
    } else {
        DEFAULT_HEAD@ + escape_backslashes(path) + DEFAULT_TAIL@
    }
}

/// `s` with each backslash doubled, ready to stand inside a quoted script string.
pub fn escape_path(s: &str) -> (r: String)
    ensures
        r@ == escape_backslashes(s@),
{
    let v = chars_of(s);
    let n = v.len();
    let mut r = String::new();
    let mut i: usize = 0;
    while i < n
        invariant
            i <= n == v@.len(),
            v@ == s@,
            r@ == escape_backslashes(v@.subrange(0, i as int)),
        decreases n - i,
    {
        assert(v@.subrange(0, i + 1).drop_last() =~= v@.subrange(0, i as int));
        if v[i] == '\\' {
            proof {
                reveal_strlit("\\\\");
            }
            r.append("\\\\");
        } else {
            let piece = s.substring_char(i, i + 1);
            assert(piece@ =~= seq![v@[i as int]]);
            r.append(piece);
        }
        i = i + 1;
    }
    assert(v@.subrange(0, n as int) =~= v@);
    r
}

/// The payload wrapped in a document whose page and body are `width` mm wide.
pub fn styled_html(html: &str, width: u32) -> (r: String)
    ensures
        r@ == styled_page(html@, width),
{
    let w = decimal_text(width);
    let mut r = String::from_str(PAGE_HEAD);
    r.append(w.as_str());
    r.append(PAGE_BODY_WIDTH);
    r.append(w.as_str());
    r.append(PAGE_OPEN_BODY);
    r.append(html);
    r.append(PAGE_TAIL);
    r
}

/// The styled document for a payload printed with `options`.
pub fn styled_html_for(html: &str, options: &PrintOptions) -> (r: String)
    ensures
        r@ == styled_page(html@, width_of(options@)),
{
    styled_html(html, options.width_or_default())
}

/// The script that prints the file at `path` with `options`.
pub fn build_print_script(options: &PrintOptions, path: &str) -> (r: String)
    ensures
        r@ == print_script_of(options@, path@),
{
    let escaped = escape_path(path);
    match &options.printer {
        Some(_) => {
            let copies = decimal_text(options.copies_or_one());
            let mut r = String::from_str(TARGETED_HEAD);
            r.append(escaped.as_str());
            r.append(TARGETED_COPIES);
            r.append(copies.as_str());
            r.append(TARGETED_TAIL);
            r
        },
        None => {
            let mut r = String::from_str(DEFAULT_HEAD);
            r.append(escaped.as_str());
            r.append(DEFAULT_TAIL);
            r
        },
    }
}

} // verus!
verus! {

/// Whether every backslash of `t` stands in a doubled pair, read from the end:
/// the form that escaping produces, where no backslash escapes the character
/// after it.
pub open spec fn backslashes_paired(t: Seq<char>) -> bool
    decreases t.len(),
{
    if t.len() == 0 {
        true
    } else if t.last() == '\\' {
        t.len() >= 2 && t[t.len() - 2] == '\\' && backslashes_paired(t.subrange(0, t.len() - 2))
    } else {
        backslashes_paired(t.drop_last())
    }
}

/// In an escaped text every backslash stands in a doubled pair.
pub proof fn lemma_escape_pairs_backslashes(s: Seq<char>)
    ensures
        backslashes_paired(escape_backslashes(s)),
    decreases s.len(),
{
    if s.len() > 0 {
        let a = escape_backslashes(s.drop_last());
        lemma_escape_pairs_backslashes(s.drop_last());
        let t = a + escaped_char(s.last());
        if s.last() == '\\' {
            assert(t.subrange(0, t.len() - 2) =~= a);
        } else {
            assert(t.drop_last() =~= a);
        }
    }
}

} // verus!

verus! {

/// `t` with each doubled backslash, read from the end, taken back to one.
pub open spec fn unescape_backslashes(t: Seq<char>) -> Seq<char>
    decreases t.len(),
{
    if t.len() == 0 {
        seq![]
    } else if t.len() >= 2 && t.last() == '\\' && t[t.len() - 2] == '\\' {
        unescape_backslashes(t.subrange(0, t.len() - 2)).push('\\')
    } else {
        unescape_backslashes(t.drop_last()).push(t.last())
    }
}

/// Taking the doubled backslashes of an escaped text back to one gives the
/// text that was escaped: escaping loses and adds nothing else.
pub proof fn lemma_unescape_escape(s: Seq<char>)
    ensures
        unescape_backslashes(escape_backslashes(s)) == s,
    decreases s.len(),
{
    if s.len() > 0 {
        let a = escape_backslashes(s.drop_last());
        lemma_unescape_escape(s.drop_last());
        let t = a + escaped_char(s.last());
        if s.last() == '\\' {
            assert(t.subrange(0, t.len() - 2) =~= a);
        } else {
            assert(t.drop_last() =~= a);
        }
        assert(s.drop_last().push(s.last()) =~= s);
    }
}

} // verus!
