use ticket_print::decimal::{decimal_string, push_decimal, push_signed_decimal};
use ticket_print::staging::{staged_file_name, StagedFile};

#[test]
fn decimal_string_matches_std_formatting() {
    for n in [0u128, 1, 9, 10, 11, 99, 100, 101, 1_700_000_000_000, u64::MAX as u128, u128::MAX] {
        assert_eq!(decimal_string(n), n.to_string());
    }
}

#[test]
fn push_decimal_appends_to_what_is_there() {
    let mut out = String::from("n=");
    push_decimal(&mut out, 2024);
    assert_eq!(out, "n=2024");
    push_decimal(&mut out, 0);
    assert_eq!(out, "n=20240");
}

#[test]
fn push_signed_decimal_writes_the_sign() {
    for v in [0i32, 1, -1, 42, -42, 255, i32::MAX, i32::MIN] {
        let mut out = String::new();
        push_signed_decimal(&mut out, v);
        assert_eq!(out, v.to_string());
    }
}

#[test]
fn staged_file_name_follows_the_scheme() {
    assert_eq!(staged_file_name(1_700_000_000_000, "png"), "ticket_1700000000000.png");
    assert_eq!(staged_file_name(0, "png"), "ticket_0.png");
    assert_eq!(staged_file_name(7, "bmp"), "ticket_7.bmp");
    assert_eq!(staged_file_name(12, ""), "ticket_12.");
}

#[test]
fn staging_at_two_instants_gives_two_names() {
    let mut seen = std::collections::BTreeSet::new();
    for millis in (0..2000u128).chain([1_700_000_000_000, 1_700_000_000_001, 17, 170, 1700]) {
        seen.insert(staged_file_name(millis, "png"));
    }
    assert_eq!(seen.len(), 2002);
    assert_ne!(staged_file_name(1, "png"), staged_file_name(10, "png"));
    assert_ne!(staged_file_name(1_700_000_000_000, "png"), staged_file_name(1_700_000_000_001, "png"));
}

#[test]
fn staged_file_holds_path_and_length() {
    let file = StagedFile { path: "/tmp/ticket_5.png".to_string(), len: 3 };
    let copy = file.clone();
    assert_eq!(copy.path, "/tmp/ticket_5.png");
    assert_eq!(copy.len, 3);
}
