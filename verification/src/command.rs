//! The native invocations: which tool is run, and with which arguments.
//!
//! A printer's name and a file's path are handed to the POSIX tools as
//! arguments of their own. The Windows scripting host takes a script instead;
//! there both are written as quoted literals, so that whatever they hold
//! stays data.

use vstd::prelude::*;
use vstd::string::StringExecFns;
use crate::decimal::{decimal, push_decimal};
use crate::platform::Platform;
use crate::scaling::RenderSize;
use crate::text::chars_of;

verus! {

/// A native tool and the arguments it is run with.
#[derive(Clone, Debug)]
pub struct Invocation {
    pub program: String,
    pub args: Vec<String>,
}

impl Invocation {
    /// Whether this is the invocation of `program` with exactly `args`, in
    /// that order.
    pub open spec fn runs(&self, program: Seq<char>, args: Seq<Seq<char>>) -> bool {
        self.program@ == program && self.args.deep_view() == args
    }
}

/// Whether the scripting host reads `c` as a single quotation mark: the
/// apostrophe and its four typographic forms.
pub open spec fn is_quote(c: char) -> bool {
    c == '\'' || c == '\u{2018}' || c == '\u{2019}' || c == '\u{201A}' || c == '\u{201B}'
}

/// Executable test for [`is_quote`].
pub fn is_quote_char(c: char) -> (b: bool)
    ensures
        b == is_quote(c),
{
    c == '\'' || c == '\u{2018}' || c == '\u{2019}' || c == '\u{201A}' || c == '\u{201B}'
}

/// One character as it stands inside a quoted literal: a quotation mark is
/// written twice.
pub open spec fn escaped_char(c: char) -> Seq<char> {
    if is_quote(c) {
        seq![c, c]
    } else {
        seq![c]
    }
}

/// `s` as it stands inside a quoted literal.
pub open spec fn escaped(s: Seq<char>) -> Seq<char>
    decreases s.len(),
{
    if s.len() == 0 {
        Seq::empty()
    } else {
        escaped_char(s[0]) + escaped(s.drop_first())
    }
}

/// `s` as a quoted literal of the scripting host.
pub open spec fn quoted(s: Seq<char>) -> Seq<char> {
    seq!['\''] + escaped(s) + seq!['\'']
}

/// How the scripting host reads a quoted literal whose opening quotation
/// mark it has passed: two quotation marks in a row stand for the first of
/// them, and one alone ends the literal. The result is the text that the
/// literal stands for and the number of characters read, the closing mark
/// included; `None` if the literal never ends.
pub open spec fn read_literal(t: Seq<char>) -> Option<(Seq<char>, nat)>
    decreases t.len(),
{
    if t.len() == 0 {
        None
    } else if is_quote(t[0]) {
        if t.len() >= 2 && is_quote(t[1]) {
            match read_literal(t.skip(2)) {
                Some((text, read)) => Some((seq![t[0]] + text, read + 2)),
                None => None,
            }
        } else {
            Some((Seq::empty(), 1))
        }
    } else {
        match read_literal(t.skip(1)) {
            Some((text, read)) => Some((seq![t[0]] + text, read + 1)),
            None => None,
        }
    }
}

/// Escaping goes character by character.
pub proof fn lemma_escaped_push(s: Seq<char>, c: char)
    ensures
        escaped(s.push(c)) == escaped(s) + escaped_char(c),
    decreases s.len(),
{
    if s.len() == 0 {
        let one = s.push(c);
        assert(one.len() == 1 && one[0] == c);
        assert(one.drop_first() =~= Seq::<char>::empty());
        assert(escaped(one.drop_first()) =~= Seq::<char>::empty());
        assert(escaped(one) == escaped_char(c) + escaped(one.drop_first()));
        assert(escaped(s.push(c)) =~= escaped(s) + escaped_char(c));
    } else {
        assert(s.push(c).drop_first() =~= s.drop_first().push(c));
        lemma_escaped_push(s.drop_first(), c);
        assert(escaped(s.push(c)) =~= escaped(s) + escaped_char(c));
    }
}

/// A quoted literal holds its text and nothing else. Whatever `s` holds, the
/// scripting host reads the literal up to the closing mark that `quoted` put
/// there, and reads it as `s`: no character of `s` can end the literal or
/// reach the script around it.
pub proof fn lemma_quoted_is_read_back(s: Seq<char>, rest: Seq<char>)
    requires
        rest.len() > 0 ==> !is_quote(rest[0]),
    ensures
        read_literal(escaped(s) + seq!['\''] + rest) == Some((s, escaped(s).len() + 1)),
    decreases s.len(),
{
    let t = escaped(s) + seq!['\''] + rest;
    if s.len() == 0 {
        assert(t =~= seq!['\''] + rest);
        assert(t.len() >= 2 ==> t[1] == rest[0]);
        assert(s =~= Seq::<char>::empty());
    } else {
        let tail = s.drop_first();
        let after = escaped(tail) + seq!['\''] + rest;
        lemma_quoted_is_read_back(tail, rest);
        if is_quote(s[0]) {
            assert(t[0] == s[0] && t[1] == s[0]);
            assert(t.skip(2) =~= after);
        } else {
            assert(t[0] == s[0]);
            assert(t.skip(1) =~= after);
        }
        assert(seq![s[0]] + tail =~= s);
    }
}

/// Writes `s` as a quoted literal of the scripting host.
pub fn quote(s: &str) -> (literal: String)
    ensures
        literal@ == quoted(s@),
{
    proof {
        reveal_strlit("'");
    }
    let chars = chars_of(s);
    let mut literal = "'".to_owned();
    let mut i: usize = 0;
    assert(literal@ =~= seq!['\''] + escaped(s@.take(0)));
    while i < chars.len()
        invariant
            chars@ == s@,
            i <= chars@.len(),
            literal@ == seq!['\''] + escaped(s@.take(i as int)),
        decreases chars@.len() - i,
    {
        let one = s.substring_char(i, i + 1);
        assert(one@ =~= seq![s@[i as int]]);
        literal.append(one);
        if is_quote_char(chars[i]) {
            literal.append(one);
        }
        proof {
            lemma_escaped_push(s@.take(i as int), s@[i as int]);
            assert(s@.take(i + 1) =~= s@.take(i as int).push(s@[i as int]));
            assert(literal@ =~= seq!['\''] + escaped(s@.take(i + 1)));
        }
        i += 1;
    }
    assert(s@.take(i as int) =~= s@);
    literal.append("'");
    literal
}

/// The script that prints the image at `path` on `printer`, drawn into a
/// rectangle of `width` by `height` hundredths of an inch at the page's
/// origin. The page has no margins, and the image is drawn dot for dot,
/// without smoothing.
pub open spec fn print_script(
    printer: Seq<char>,
    path: Seq<char>,
    width: nat,
    height: nat,
) -> Seq<char> {
    SCRIPT_LOAD@ + quoted(path) + SCRIPT_TARGET@ + quoted(printer) + SCRIPT_PAGE@ + decimal(width)
        + ", "@ + decimal(height) + SCRIPT_SUBMIT@
}

pub const SCRIPT_LOAD: &'static str =
    "Add-Type -AssemblyName System.Drawing; $image = [System.Drawing.Image]::FromFile(";

pub const SCRIPT_TARGET: &'static str =
    "); $document = New-Object System.Drawing.Printing.PrintDocument; $document.PrinterSettings.PrinterName = ";

pub const SCRIPT_PAGE: &'static str =
    "; $document.DocumentName = 'Ticket'; $document.OriginAtMargins = $false; $document.DefaultPageSettings.Margins = New-Object System.Drawing.Printing.Margins(0, 0, 0, 0); $document.add_PrintPage({ param($source, $page) $page.Graphics.InterpolationMode = [System.Drawing.Drawing2D.InterpolationMode]::NearestNeighbor; $page.Graphics.SmoothingMode = [System.Drawing.Drawing2D.SmoothingMode]::None; $page.Graphics.DrawImage($image, 0, 0, ";

pub const SCRIPT_SUBMIT: &'static str =
    "); $page.HasMorePages = $false }); $document.Print(); $image.Dispose(); Write-Output 'PRINTED'";

/// Writes the script that prints the image at `path` on `printer`.
pub fn write_print_script(printer: &str, path: &str, size: RenderSize) -> (script: String)
    ensures
        script@ == print_script(printer@, path@, size.width as nat, size.height as nat),
{
    let mut script = SCRIPT_LOAD.to_owned();
    let path_literal = quote(path);
    script.append(path_literal.as_str());
    script.append(SCRIPT_TARGET);
    let printer_literal = quote(printer);
    script.append(printer_literal.as_str());
    script.append(SCRIPT_PAGE);
    push_decimal(&mut script, size.width as u128);
    script.append(", ");
    push_decimal(&mut script, size.height as u128);
    script.append(SCRIPT_SUBMIT);
    script
}

/// The tool that lists the installed printers.
pub open spec fn listing_tool(platform: Platform) -> Seq<char> {
    match platform {
        Platform::Windows => "powershell"@,
        Platform::Posix => "lpstat"@,
    }
}

/// The arguments that make the listing tool print the printers' names.
pub open spec fn listing_args(platform: Platform) -> Seq<Seq<char>> {
    match platform {
        Platform::Windows => seq![
            "-Command"@,
            "Get-Printer | Select-Object -ExpandProperty Name"@,
        ],
        Platform::Posix => seq!["-p"@],
    }
}

/// The arguments with which the POSIX tool submits the file at `path` to
/// `printer`.
pub open spec fn posix_print_args(printer: Seq<char>, path: Seq<char>) -> Seq<Seq<char>> {
    seq!["-d"@, printer, path]
}

/// The arguments with which the Windows scripting host runs `script`.
pub open spec fn windows_print_args(script: Seq<char>) -> Seq<Seq<char>> {
    seq!["-NoProfile"@, "-Command"@, script]
}

/// The invocation that lists the installed printers.
pub fn listing_command(platform: Platform) -> (invocation: Invocation)
    ensures
        invocation.runs(listing_tool(platform), listing_args(platform)),
{
    let mut args: Vec<String> = Vec::new();
    match platform {
        Platform::Windows => {
            args.push("-Command".to_owned());
            args.push("Get-Printer | Select-Object -ExpandProperty Name".to_owned());
            assert(args.deep_view() =~= listing_args(platform));
            Invocation { program: "powershell".to_owned(), args }
        },
        Platform::Posix => {
            args.push("-p".to_owned());
            assert(args.deep_view() =~= listing_args(platform));
            Invocation { program: "lpstat".to_owned(), args }
        },
    }
}

/// The invocation that submits the file at `path` to `printer` on a POSIX
/// host: `lp` with exactly that printer and that path. Scaling and margins
/// are left to the spooler.
pub fn posix_print_command(printer: &str, path: &str) -> (invocation: Invocation)
    ensures
        invocation.runs("lp"@, posix_print_args(printer@, path@)),
{
    let mut args: Vec<String> = Vec::new();
    args.push("-d".to_owned());
    args.push(printer.to_owned());
    args.push(path.to_owned());
    assert(args.deep_view() =~= posix_print_args(printer@, path@));
    Invocation { program: "lp".to_owned(), args }
}

/// The invocation that prints the image at `path` on `printer` on a Windows
/// host, drawn at `size`: the scripting host with the print script.
pub fn windows_print_command(printer: &str, path: &str, size: RenderSize) -> (invocation:
    Invocation)
    ensures
        invocation.runs(
            "powershell"@,
            windows_print_args(
                print_script(printer@, path@, size.width as nat, size.height as nat),
            ),
        ),
{
    let script = write_print_script(printer, path, size);
    let mut args: Vec<String> = Vec::new();
    args.push("-NoProfile".to_owned());
    args.push("-Command".to_owned());
    args.push(script);
    assert(args.deep_view() =~= windows_print_args(
        print_script(printer@, path@, size.width as nat, size.height as nat),
    ));
    Invocation { program: "powershell".to_owned(), args }
}

} // verus!
