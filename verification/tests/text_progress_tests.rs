use bitburn::platform::{
    disable_context_menu, enable_context_menu, is_autostart_enabled, is_context_menu_enabled,
    remove_autostart, write_autostart, AutostartError, ContextMenuError,
};
use bitburn::progress::WipeProgress;
use bitburn::text::{confirmation_message, count_char, count_lines, join_with_newlines, u64_to_dec};

#[test]
fn decimal_rendering_is_exact() {
    assert_eq!(u64_to_dec(0), "0");
    assert_eq!(u64_to_dec(7), "7");
    assert_eq!(u64_to_dec(35), "35");
    assert_eq!(u64_to_dec(12345), "12345");
    assert_eq!(u64_to_dec(u64::MAX), "18446744073709551615");
}

#[test]
fn joining_lines_with_newlines() {
    assert_eq!(join_with_newlines(&vec![]), "");
    assert_eq!(join_with_newlines(&vec!["a".to_string()]), "a");
    assert_eq!(
        join_with_newlines(&vec!["a".to_string(), "b".to_string(), "c".to_string()]),
        "a\nb\nc"
    );
}

#[test]
fn character_and_line_counting() {
    assert_eq!(count_char("C:\\Users\\data", '\\'), 2);
    assert_eq!(count_char("C:\\", '\\'), 1);
    assert_eq!(count_char("", '\\'), 0);
    assert_eq!(count_lines(""), 0);
    assert_eq!(count_lines("a"), 1);
    assert_eq!(count_lines("a\nb"), 2);
    assert_eq!(count_lines("a\nb\n"), 2);
    assert_eq!(count_lines("a\n\nb"), 3);
}

#[test]
fn confirmation_messages_for_files_and_drives() {
    let m = confirmation_message("C:/a.txt\nC:/b.txt\nC:/c.txt", "Gutmann", "35-pass overwrite");
    assert_eq!(
        m,
        "You are about to permanently erase 3 file(s) using:\n\nAlgorithm: Gutmann\nDescription: 35-pass overwrite\n\nTHIS ACTION CANNOT BE UNDONE!\n\nAre you absolutely sure you want to continue?"
    );
    let m = confirmation_message("C:\\", "NIST 800-88 Clear", "1-pass zero overwrite");
    assert_eq!(
        m,
        "You are about to wipe all free space on the selected drive using:\n\nAlgorithm: NIST 800-88 Clear\nDescription: 1-pass zero overwrite\n\nTHIS ACTION CANNOT BE UNDONE!\n\nAre you absolutely sure you want to continue?"
    );
}

#[test]
fn progress_starts_at_pass_one() {
    let p = WipeProgress::new(3, 4096, "NIST 800-88 Purge");
    assert_eq!(p.current_pass, 1);
    assert_eq!(p.total_passes, 3);
    assert_eq!(p.bytes_processed, 0);
    assert_eq!(p.total_bytes, 4096);
    assert_eq!(p.current_algorithm, "NIST 800-88 Purge");
    assert_eq!(p.current_pattern, "");
    assert_eq!(p.percentage, 0);
    assert_eq!(p.estimated_total_bytes, None);
}

#[test]
fn percentage_follows_the_documented_formula() {
    let mut p = WipeProgress::new(1, 200, "Random");
    p.update(50, "working");
    assert_eq!(p.percentage, 25);
    assert_eq!(p.bytes_processed, 50);
    assert_eq!(p.current_pattern, "working");
    p.update(200, "working");
    assert_eq!(p.percentage, 100);
    // An advisory estimate overrides the exact total.
    p.estimated_total_bytes = Some(100);
    p.update(50, "working");
    assert_eq!(p.percentage, 50);
    // The figure is deliberately not clamped at 100.
    p.update(150, "working");
    assert_eq!(p.percentage, 150);
    // A zero denominator reports zero rather than failing.
    let mut empty = WipeProgress::new(1, 0, "Random");
    empty.update(0, "working");
    assert_eq!(empty.percentage, 0);
}

#[test]
fn snapshots_are_identical_copies() {
    let mut p = WipeProgress::new(2, 100, "Gutmann");
    p.update(40, "Pattern 5/35: 0x55 0xAA");
    let s = p.snapshot();
    assert_eq!(s.current_pass, p.current_pass);
    assert_eq!(s.bytes_processed, 40);
    assert_eq!(s.current_pattern, p.current_pattern);
    assert_eq!(s.percentage, 40);
}

#[test]
fn registry_backed_integrations_are_unsupported_on_this_platform() {
    assert!(matches!(
        write_autostart("C:/BitBurn/BitBurn.exe"),
        Err(AutostartError::UnsupportedPlatform)
    ));
    assert!(matches!(remove_autostart(), Err(AutostartError::UnsupportedPlatform)));
    assert!(matches!(is_autostart_enabled(), Err(AutostartError::UnsupportedPlatform)));
    assert!(matches!(
        enable_context_menu("C:/BitBurn/BitBurn.exe"),
        Err(ContextMenuError::UnsupportedPlatform)
    ));
    assert!(matches!(disable_context_menu(), Err(ContextMenuError::UnsupportedPlatform)));
    assert!(matches!(is_context_menu_enabled(), Err(ContextMenuError::UnsupportedPlatform)));
    assert!(AutostartError::UnsupportedPlatform
        .message()
        .contains("not supported"));
    assert!(ContextMenuError::UnsupportedPlatform
        .message()
        .contains("not supported"));
}
