use ticket_print::platform::{Platform, ProcessOutput};
use ticket_print::printers::{fallback_printers, list_printers, parse_listing, printers_in};

fn listing(exit_code: Option<i32>, stdout: &[u8]) -> ProcessOutput {
    ProcessOutput { exit_code, stdout: stdout.to_vec(), stderr: Vec::new() }
}

fn windows_by_std(text: &str) -> Vec<String> {
    text.lines().filter(|line| !line.trim().is_empty()).map(|line| line.trim().to_string()).collect()
}

fn posix_by_std(text: &str) -> Vec<String> {
    text.lines()
        .filter_map(|line| {
            line.strip_prefix("printer ")
                .and_then(|s| s.split_whitespace().next())
                .map(|s| s.to_string())
        })
        .collect()
}

fn fallback() -> Vec<String> {
    vec!["Imprimante par défaut".to_string(), "Microsoft Print to PDF".to_string()]
}

const SAMPLES: [&str; 22] = [
    "",
    "\n",
    "\r\n",
    "   \n\t\n",
    "HP LaserJet\r\nEpson TM-T20\r\n",
    "HP LaserJet\nEpson TM-T20",
    "  padded name  \r\n\r\n\r\nnext\r",
    "one\rtwo\nthree",
    "printer Label1 is idle.  enabled since Mon 01 Jan 2024\n",
    "printer Label1 is idle.\nprinter Office disabled since Tue\n\tReason unknown\n",
    "scheduler is running\nprinter A now printing A-12.\n",
    "printer \n",
    "printer",
    "printer    spaced   out\n",
    "printer\tTabbed\n",
    "printerX y\n",
    " printer Indented\n",
    "Printer Upper\n",
    "printer Label1\r\nprinter Label2\r\n",
    "printer \u{a0}Nbsp rest\n",
    "printer é-name idle\nprinter 名前 idle",
    "printer a\n\nprinter b\n\n\n",
];

#[test]
fn windows_listing_names_one_printer_per_line() {
    let names = parse_listing(
        Platform::Windows,
        "HP LaserJet\r\n\r\n  Epson TM-T20  \r\nMicrosoft Print to PDF\r\n",
    );
    assert_eq!(names, vec!["HP LaserJet", "Epson TM-T20", "Microsoft Print to PDF"]);
}

#[test]
fn posix_listing_names_first_token_after_tag() {
    let names = parse_listing(
        Platform::Posix,
        "printer Label1 is idle.  enabled since Mon 01 Jan 2024\n\
         printer Office disabled since Tue 02 Jan 2024 -\n\
         \tReason unknown\n\
         scheduler is running\n",
    );
    assert_eq!(names, vec!["Label1", "Office"]);
}

#[test]
fn posix_listing_ignores_lines_of_another_shape() {
    assert!(parse_listing(Platform::Posix, "printer \n").is_empty());
    assert!(parse_listing(Platform::Posix, "printer").is_empty());
    assert!(parse_listing(Platform::Posix, "printerX y\n").is_empty());
    assert!(parse_listing(Platform::Posix, " printer Indented\n").is_empty());
    assert!(parse_listing(Platform::Posix, "Printer Upper\n").is_empty());
    assert_eq!(parse_listing(Platform::Posix, "printer    spaced   out\n"), vec!["spaced"]);
}

#[test]
fn windows_parser_agrees_with_std_chain() {
    for sample in SAMPLES {
        assert_eq!(parse_listing(Platform::Windows, sample), windows_by_std(sample), "{:?}", sample);
    }
}

#[test]
fn posix_parser_agrees_with_std_chain() {
    for sample in SAMPLES {
        assert_eq!(parse_listing(Platform::Posix, sample), posix_by_std(sample), "{:?}", sample);
    }
}

#[test]
fn names_come_in_source_order_without_blanks() {
    let head = "  first \n\nsecond";
    let tail = "third\n   \nfourth\n";
    let joined = format!("{}\n{}", head, tail);
    let mut expected = parse_listing(Platform::Windows, head);
    expected.extend(parse_listing(Platform::Windows, tail));
    assert_eq!(parse_listing(Platform::Windows, &joined), expected);
    assert_eq!(expected, vec!["first", "second", "third", "fourth"]);
    for sample in SAMPLES {
        for platform in [Platform::Windows, Platform::Posix] {
            for name in parse_listing(platform, sample) {
                assert!(!name.is_empty());
                assert!(!name.starts_with(char::is_whitespace));
                assert!(!name.ends_with(char::is_whitespace));
                if platform == Platform::Posix {
                    assert!(!name.contains(char::is_whitespace));
                }
            }
        }
    }
}

#[test]
fn fallback_is_exactly_the_two_entries() {
    assert_eq!(fallback_printers(), fallback());
}

#[test]
fn printers_in_offers_names_or_fallback() {
    assert_eq!(printers_in(Platform::Windows, "A\nB\n"), vec!["A", "B"]);
    assert_eq!(printers_in(Platform::Windows, " \n\n"), fallback());
    assert_eq!(printers_in(Platform::Posix, "scheduler is running\n"), fallback());
    assert_eq!(printers_in(Platform::Posix, "printer P idle\n"), vec!["P"]);
}

#[test]
fn list_printers_reads_a_successful_listing() {
    let output = listing(Some(0), b"printer Label1 is idle.\nprinter Label2 is idle.\n");
    assert_eq!(list_printers(Platform::Posix, Some(&output)), vec!["Label1", "Label2"]);
    let output = listing(Some(0), b"Zebra ZD420\r\nMicrosoft Print to PDF\r\n");
    assert_eq!(
        list_printers(Platform::Windows, Some(&output)),
        vec!["Zebra ZD420", "Microsoft Print to PDF"]
    );
}

#[test]
fn list_printers_falls_back_when_the_tool_is_missing() {
    assert_eq!(list_printers(Platform::Posix, None), fallback());
    assert_eq!(list_printers(Platform::Windows, None), fallback());
}

#[test]
fn list_printers_falls_back_on_a_failed_exit() {
    let output = listing(Some(1), b"printer Label1 is idle.\n");
    assert_eq!(list_printers(Platform::Posix, Some(&output)), fallback());
    let output = listing(None, b"Zebra\r\n");
    assert_eq!(list_printers(Platform::Windows, Some(&output)), fallback());
}

#[test]
fn list_printers_falls_back_when_nothing_is_named() {
    let output = listing(Some(0), b"");
    assert_eq!(list_printers(Platform::Windows, Some(&output)), fallback());
    let output = listing(Some(0), b"\r\n  \r\n");
    assert_eq!(list_printers(Platform::Windows, Some(&output)), fallback());
    let output = listing(Some(0), b"lpstat: No destinations added.\n");
    assert_eq!(list_printers(Platform::Posix, Some(&output)), fallback());
}

#[test]
fn list_printers_decodes_malformed_bytes_lossily() {
    let output = listing(Some(0), b"Caf\xff\r\nBureau\xc3\xa9\r\n");
    assert_eq!(
        list_printers(Platform::Windows, Some(&output)),
        vec!["Caf\u{fffd}", "Bureau\u{e9}"]
    );
}

#[test]
fn list_printers_never_returns_an_empty_list() {
    for sample in SAMPLES {
        for platform in [Platform::Windows, Platform::Posix] {
            for exit_code in [Some(0), Some(2), None] {
                let output = listing(exit_code, sample.as_bytes());
                assert!(!list_printers(platform, Some(&output)).is_empty());
            }
        }
    }
}
