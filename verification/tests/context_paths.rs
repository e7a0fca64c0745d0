use bitburn::paths::collect_context_paths;

#[test]
fn collect_context_paths_parses_cli_arguments() {
    let args = vec![
        "BitBurn.exe".to_string(),
        "--context-wipe".to_string(),
        "C:/example/file1.txt".to_string(),
        "--other".to_string(),
        "D:/second.bin".to_string(),
    ];

    let collected = collect_context_paths(&args);
    assert_eq!(
        collected,
        vec!["C:/example/file1.txt".to_string(), "D:/second.bin".to_string(),]
    );
}

#[test]
fn collect_context_paths_splits_multi_value_argument() {
    let args = vec![
        "BitBurn.exe".to_string(),
        "--context-wipe".to_string(),
        "C:/one.txt|D:/two.txt;E:/three.txt\nF:/four.txt".to_string(),
    ];

    let collected = collect_context_paths(&args);
    assert_eq!(
        collected,
        vec![
            "C:/one.txt".to_string(),
            "D:/two.txt".to_string(),
            "E:/three.txt".to_string(),
            "F:/four.txt".to_string(),
        ]
    );
}

#[test]
fn collect_context_paths_without_flag_returns_nothing() {
    let args = vec![
        "BitBurn.exe".to_string(),
        "C:/example/file1.txt".to_string(),
    ];

    let collected = collect_context_paths(&args);
    assert!(collected.is_empty());
}

#[test]
fn collect_context_paths_drops_empty_pieces() {
    let args = vec![
        "BitBurn.exe".to_string(),
        "--context-wipe".to_string(),
        "||C:/a.txt;;\n".to_string(),
    ];

    let collected = collect_context_paths(&args);
    assert_eq!(collected, vec!["C:/a.txt".to_string()]);
}
