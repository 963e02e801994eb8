use sysbanner::facts::{
    get_title, resolve_arch, resolve_command, resolve_env, resolve_file, CollectError, Policy,
    DESKTOP_VARIABLE, KERNEL, SEPARATOR, SYSTEM_BOARD, TERMINAL_VARIABLE, UNKNOWN,
};

#[test]
fn constants() {
    assert_eq!(KERNEL, "/proc/sys/kernel/osrelease");
    assert_eq!(SYSTEM_BOARD, "/sys/devices/virtual/dmi/id/board_name");
    assert_eq!(TERMINAL_VARIABLE, "TERM_PROGRAM");
    assert_eq!(DESKTOP_VARIABLE, "XDG_CURRENT_DESKTOP");
    assert_eq!(SEPARATOR, "-----------");
    assert_eq!(SEPARATOR.len(), 11);
    assert_eq!(UNKNOWN, "Unknown");
}

#[test]
fn title_joins_user_and_host() {
    assert_eq!(get_title(Some("alice"), "box1"), Ok("alice@box1".to_string()));
    assert_eq!(get_title(Some(""), ""), Ok("@".to_string()));
    assert_eq!(get_title(Some("a b"), " h "), Ok("a b@ h ".to_string()));
    assert_eq!(get_title(None, "box1"), Err(CollectError::MissingUser));
}

#[test]
fn architecture_falls_back_to_unknown() {
    assert_eq!(resolve_arch(Some("x86_64")), "x86_64");
    assert_eq!(resolve_arch(Some("")), "");
    assert_eq!(resolve_arch(None), "Unknown");
}

#[test]
fn file_contents_are_trimmed() {
    assert_eq!(resolve_file(Ok("6.8.0-generic\n")), Ok("6.8.0-generic".to_string()));
    assert_eq!(resolve_file(Ok("  X570 AORUS \n")), Ok("X570 AORUS".to_string()));
    assert_eq!(resolve_file(Ok("")), Ok(String::new()));
    assert_eq!(
        resolve_file(Err("Permission denied (os error 13)")),
        Err(CollectError::UnreadableFile { reason: "Permission denied (os error 13)".to_string() })
    );
}

#[test]
fn environment_follows_the_policy() {
    assert_eq!(resolve_env("WM", Some("KDE"), Policy::Lenient), Ok("KDE".to_string()));
    assert_eq!(resolve_env("WM", Some("KDE"), Policy::Strict), Ok("KDE".to_string()));
    assert_eq!(resolve_env("WM", Some(" KDE\n"), Policy::Strict), Ok(" KDE\n".to_string()));
    assert_eq!(resolve_env("WM", None, Policy::Lenient), Ok("Unknown".to_string()));
    assert_eq!(
        resolve_env("WM", None, Policy::Strict),
        Err(CollectError::MissingVariable { name: "WM".to_string() })
    );
}

#[test]
fn command_output_loses_its_trailing_white_space() {
    assert_eq!(resolve_command("hostname", Some("box1\n")), Ok("box1".to_string()));
    assert_eq!(resolve_command("uname", Some(" 6.8.0 \n\n")), Ok(" 6.8.0".to_string()));
    assert_eq!(
        resolve_command("id", None),
        Err(CollectError::CommandFailed { program: "id".to_string() })
    );
}

#[test]
fn messages() {
    assert_eq!(
        CollectError::UnreadableFile { reason: "boom".to_string() }.message(),
        "Error reading file: boom"
    );
    assert_eq!(
        CollectError::MissingVariable { name: "TERM_PROGRAM".to_string() }.message(),
        "Missing environment variable: TERM_PROGRAM"
    );
    assert_eq!(CollectError::MissingUser.message(), "Unable to get username");
    assert_eq!(
        CollectError::CommandFailed { program: "uname".to_string() }.message(),
        "Unable to run command: uname"
    );
}
