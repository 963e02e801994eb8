use sysbanner::facts::{CollectError, Fact, FactSource, Label, Policy, Readings};
use sysbanner::facts::collect;
use sysbanner::report::{default_art, default_palette, run};
use sysbanner::color::{ColorSpec, CustomColor};

fn sample() -> Readings {
    Readings {
        user: Some("alice".to_string()),
        host: "box1".to_string(),
        os_type: "Linux".to_string(),
        arch: None,
        kernel: Ok("6.8.0-generic\n".to_string()),
        board: Ok("X570 AORUS\n".to_string()),
        terminal: None,
        desktop: Some("KDE".to_string()),
    }
}

#[test]
fn end_to_end_example_without_art() {
    let report = run(&sample(), Policy::Lenient, None, None);
    assert_eq!(report.status, 0);
    assert_eq!(
        report.lines,
        vec![
            "alice@box1",
            "-----------",
            "OS:       Linux",
            "Kernel:   6.8.0-generic",
            "Arch:     Unknown",
            "System:   X570 AORUS",
            "Terminal: Unknown",
            "WM:       KDE",
        ]
    );
}

#[test]
fn default_policy_is_lenient() {
    assert_eq!(Policy::default(), Policy::Lenient);
    let report = run(&sample(), Policy::default(), None, None);
    assert_eq!(report.status, 0);
    assert_eq!(report.lines[6], "Terminal: Unknown");
}

#[test]
fn absent_architecture_shows_unknown_and_succeeds() {
    let mut readings = sample();
    readings.arch = None;
    let report = run(&readings, Policy::Lenient, None, None);
    assert_eq!(report.status, 0);
    assert_eq!(report.lines[4], "Arch:     Unknown");
    let strict = Readings { terminal: Some("kitty".to_string()), ..sample() };
    let report = run(&strict, Policy::Strict, None, None);
    assert_eq!(report.status, 0);
    assert_eq!(report.lines[4], "Arch:     Unknown");
}

#[test]
fn reported_architecture_is_shown() {
    let readings = Readings { arch: Some("x86_64".to_string()), ..sample() };
    let report = run(&readings, Policy::Lenient, None, None);
    assert_eq!(report.status, 0);
    assert_eq!(report.lines[4], "Arch:     x86_64");
}

#[test]
fn unreadable_kernel_file_is_fatal() {
    let reason = "No such file or directory (os error 2)";
    let readings = Readings { kernel: Err(reason.to_string()), ..sample() };
    let report = run(&readings, Policy::Lenient, None, None);
    assert_eq!(report.status, 1);
    assert_eq!(report.lines, vec![format!("Error reading file: {}", reason)]);
    assert!(report.lines[0].contains(reason));
    let art = default_art();
    let report = run(&readings, Policy::Lenient, Some(&art), Some(default_palette()));
    assert_eq!(report.status, 1);
    assert_eq!(report.lines, vec![format!("Error reading file: {}", reason)]);
}

#[test]
fn unreadable_board_file_is_fatal() {
    let readings = Readings { board: Err("Permission denied (os error 13)".to_string()), ..sample() };
    let report = run(&readings, Policy::Lenient, None, None);
    assert_eq!(report.status, 1);
    assert_eq!(report.lines, vec!["Error reading file: Permission denied (os error 13)"]);
}

#[test]
fn missing_user_is_fatal() {
    let readings = Readings { user: None, ..sample() };
    let report = run(&readings, Policy::Lenient, None, None);
    assert_eq!(report.status, 1);
    assert_eq!(report.lines, vec!["Unable to get username"]);
    assert_eq!(collect(&readings, Policy::Lenient), Err(CollectError::MissingUser));
}

#[test]
fn strict_policy_fails_on_a_missing_variable() {
    let report = run(&sample(), Policy::Strict, None, None);
    assert_eq!(report.status, 1);
    assert_eq!(report.lines, vec!["Missing environment variable: TERM_PROGRAM"]);
    let readings = Readings { terminal: Some("kitty".to_string()), desktop: None, ..sample() };
    assert_eq!(
        collect(&readings, Policy::Strict),
        Err(CollectError::MissingVariable { name: "XDG_CURRENT_DESKTOP".to_string() })
    );
    let report = run(&readings, Policy::Lenient, None, None);
    assert_eq!(report.status, 0);
    assert_eq!(report.lines[6], "Terminal: kitty");
    assert_eq!(report.lines[7], "WM:       Unknown");
}

#[test]
fn the_first_failure_is_the_one_reported() {
    let readings = Readings {
        user: None,
        kernel: Err("first".to_string()),
        board: Err("third".to_string()),
        terminal: None,
        desktop: None,
        ..sample()
    };
    assert_eq!(
        collect(&readings, Policy::Strict),
        Err(CollectError::UnreadableFile { reason: "first".to_string() })
    );
    let readings = Readings { kernel: Ok("k".to_string()), ..readings };
    assert_eq!(collect(&readings, Policy::Strict), Err(CollectError::MissingUser));
    let readings = Readings { user: Some("u".to_string()), ..readings };
    assert_eq!(
        collect(&readings, Policy::Strict),
        Err(CollectError::UnreadableFile { reason: "third".to_string() })
    );
    let readings = Readings { board: Ok("b".to_string()), ..readings };
    assert_eq!(
        collect(&readings, Policy::Strict),
        Err(CollectError::MissingVariable { name: "TERM_PROGRAM".to_string() })
    );
}

#[test]
fn facts_come_in_the_order_of_the_rows() {
    let facts = collect(&sample(), Policy::Lenient).unwrap();
    let expected = vec![
        Fact { label: Label::Title, value: "alice@box1".to_string(), source: FactSource::OsQuery },
        Fact { label: Label::Separator, value: "-----------".to_string(), source: FactSource::Fixed },
        Fact { label: Label::Os, value: "Linux".to_string(), source: FactSource::OsQuery },
        Fact { label: Label::Kernel, value: "6.8.0-generic".to_string(), source: FactSource::FileRead },
        Fact { label: Label::Arch, value: "Unknown".to_string(), source: FactSource::OsQuery },
        Fact { label: Label::System, value: "X570 AORUS".to_string(), source: FactSource::FileRead },
        Fact { label: Label::Terminal, value: "Unknown".to_string(), source: FactSource::EnvLookup },
        Fact { label: Label::Wm, value: "KDE".to_string(), source: FactSource::EnvLookup },
    ];
    assert_eq!(facts, expected);
}

#[test]
fn running_twice_prints_the_same() {
    let art = default_art();
    let first = run(&sample(), Policy::Lenient, Some(&art), None);
    let second = run(&sample(), Policy::Lenient, Some(&art), None);
    assert_eq!(first, second);
    let first = run(&sample(), Policy::Lenient, None, None);
    let second = run(&sample(), Policy::Lenient, None, None);
    assert_eq!(first, second);
}

#[test]
fn default_art_has_eighteen_lines_of_one_width() {
    let art = default_art();
    assert_eq!(art.len(), 18);
    for line in &art {
        assert_eq!(line.chars().count(), 45);
        assert_eq!(sysbanner::width::width_of(line), 45);
    }
    assert!(art[0].starts_with("\u{2800}\u{2800}"));
    assert!(art[0].contains("\u{28e4}\u{28c0}\u{28c0}"));
    assert!(art[17].ends_with("\u{2800}"));
}

#[test]
fn default_palette_is_blue_art_and_pink_text() {
    let palette = default_palette();
    assert_eq!(palette.art, ColorSpec::Rgb(CustomColor { r: 27, g: 140, b: 157 }));
    assert_eq!(palette.text, ColorSpec::Rgb(CustomColor { r: 255, g: 111, b: 145 }));
}

#[test]
fn banner_beside_the_default_art() {
    let art = default_art();
    let report = run(&sample(), Policy::Lenient, Some(&art), None);
    assert_eq!(report.status, 0);
    assert_eq!(report.lines.len(), 18);
    assert_eq!(report.lines[0], format!("{} alice@box1", art[0]));
    assert_eq!(report.lines[4], format!("{} Arch:     Unknown", art[4]));
    assert_eq!(report.lines[7], format!("{} WM:       KDE", art[7]));
    assert_eq!(report.lines[8], format!("{} ", art[8]));
    assert_eq!(report.lines[17], format!("{} ", art[17]));
}
