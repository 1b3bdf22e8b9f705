use ticket_print::command::{
    is_quote_char, listing_command, posix_print_command, quote, windows_print_command,
    write_print_script, Invocation,
};
use ticket_print::platform::Platform;
use ticket_print::scaling::RenderSize;

fn read_back(literal: &str) -> Option<(String, usize)> {
    let chars: Vec<char> = literal.chars().collect();
    if chars.first() != Some(&'\'') {
        return None;
    }
    let mut text = String::new();
    let mut i = 1;
    while i < chars.len() {
        if is_quote_char(chars[i]) {
            if i + 1 < chars.len() && is_quote_char(chars[i + 1]) {
                text.push(chars[i]);
                i += 2;
            } else {
                return Some((text, i + 1));
            }
        } else {
            text.push(chars[i]);
            i += 1;
        }
    }
    None
}

#[test]
fn quotation_marks_are_the_apostrophe_and_its_typographic_forms() {
    for c in ['\'', '\u{2018}', '\u{2019}', '\u{201a}', '\u{201b}'] {
        assert!(is_quote_char(c));
    }
    for c in ['"', '`', '\u{201c}', '\u{201d}', 'a', ' ', '$'] {
        assert!(!is_quote_char(c));
    }
}

#[test]
fn quote_wraps_plain_text() {
    assert_eq!(quote(""), "''");
    assert_eq!(quote("Label1"), "'Label1'");
    assert_eq!(quote("C:\\Temp\\ticket_1.png"), "'C:\\Temp\\ticket_1.png'");
    assert_eq!(quote("$(Remove-Item x); \"y\" `z`"), "'$(Remove-Item x); \"y\" `z`'");
}

#[test]
fn quote_doubles_every_quotation_mark() {
    assert_eq!(quote("O'Brien"), "'O''Brien'");
    assert_eq!(quote("'"), "''''");
    assert_eq!(quote("''"), "''''''");
    assert_eq!(quote("a\u{2019}b"), "'a\u{2019}\u{2019}b'");
    assert_eq!(quote("x'; Stop-Computer; '"), "'x''; Stop-Computer; '''");
}

#[test]
fn quoted_literal_reads_back_as_the_text() {
    for text in [
        "",
        "Label1",
        "O'Brien",
        "'",
        "''",
        "'''",
        "a'b''c",
        "x'; Stop-Computer; '",
        "\u{2018}curly\u{2019}",
        "mixed'\u{2019}'\u{201b}",
        "ends with '",
        "é 名前",
    ] {
        let literal = quote(text);
        let rest = "; next";
        let script = format!("{}{}", literal, rest);
        assert_eq!(read_back(&script), Some((text.to_string(), literal.chars().count())), "{:?}", text);
    }
}

#[test]
fn listing_commands_are_the_native_tools() {
    let Invocation { program, args } = listing_command(Platform::Posix);
    assert_eq!(program, "lpstat");
    assert_eq!(args, vec!["-p"]);
    let Invocation { program, args } = listing_command(Platform::Windows);
    assert_eq!(program, "powershell");
    assert_eq!(args, vec!["-Command", "Get-Printer | Select-Object -ExpandProperty Name"]);
}

#[test]
fn posix_print_command_names_printer_and_path() {
    let Invocation { program, args } = posix_print_command("Label1", "/tmp/ticket_17.png");
    assert_eq!(program, "lp");
    assert_eq!(args, vec!["-d", "Label1", "/tmp/ticket_17.png"]);
    let Invocation { args, .. } = posix_print_command("Front Desk", "/tmp/a b.png");
    assert_eq!(args, vec!["-d", "Front Desk", "/tmp/a b.png"]);
}

#[test]
fn print_script_draws_at_the_given_size() {
    let script = write_print_script(
        "EPSON TM-T20",
        "C:\\Temp\\ticket_1.png",
        RenderSize { width: 280, height: 560 },
    );
    assert_eq!(
        script,
        "Add-Type -AssemblyName System.Drawing; \
         $image = [System.Drawing.Image]::FromFile('C:\\Temp\\ticket_1.png'); \
         $document = New-Object System.Drawing.Printing.PrintDocument; \
         $document.PrinterSettings.PrinterName = 'EPSON TM-T20'; \
         $document.DocumentName = 'Ticket'; \
         $document.OriginAtMargins = $false; \
         $document.DefaultPageSettings.Margins = New-Object System.Drawing.Printing.Margins(0, 0, 0, 0); \
         $document.add_PrintPage({ param($source, $page) \
         $page.Graphics.InterpolationMode = [System.Drawing.Drawing2D.InterpolationMode]::NearestNeighbor; \
         $page.Graphics.SmoothingMode = [System.Drawing.Drawing2D.SmoothingMode]::None; \
         $page.Graphics.DrawImage($image, 0, 0, 280, 560); \
         $page.HasMorePages = $false }); \
         $document.Print(); $image.Dispose(); Write-Output 'PRINTED'"
    );
}

#[test]
fn print_script_keeps_names_as_data() {
    let script = write_print_script(
        "x'; Stop-Computer; '",
        "C:\\it's\\t.png",
        RenderSize { width: 280, height: 1 },
    );
    assert!(script.contains("FromFile('C:\\it''s\\t.png');"));
    assert!(script.contains("PrinterName = 'x''; Stop-Computer; ''';"));
    assert!(script.contains("DrawImage($image, 0, 0, 280, 1);"));
}

#[test]
fn windows_print_command_runs_the_script() {
    let size = RenderSize { width: 280, height: 93 };
    let Invocation { program, args } = windows_print_command("P", "C:\\t.png", size);
    assert_eq!(program, "powershell");
    assert_eq!(args.len(), 3);
    assert_eq!(args[0], "-NoProfile");
    assert_eq!(args[1], "-Command");
    assert_eq!(args[2], write_print_script("P", "C:\\t.png", size));
}
