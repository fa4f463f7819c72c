use basiccli::commands::version::{runtime_label, VersionCommand, VersionOutput};

#[test]
fn test_version_constant() {
    assert_eq!(VersionCommand::VERSION, "1.0.0");
}

#[test]
fn test_build_date_constant() {
    assert_eq!(VersionCommand::BUILD_DATE, "2025-01-15");
}

#[test]
fn test_default_output() {
    let cmd = VersionCommand::new(false);
    assert!(matches!(cmd.execute("1.75", "linux"), VersionOutput::Lines(_)));
}

#[test]
fn version_test_json_output() {
    let cmd = VersionCommand::new(true);
    assert!(matches!(cmd.execute("1.75", "linux"), VersionOutput::Json(_)));
}

#[test]
fn test_version_info_structure() {
    let cmd = VersionCommand::new(false);
    let info = cmd.build_version_info("1.75", "linux");

    assert_eq!(info.name, "PTD Ruby CLI");
    assert_eq!(info.version, VersionCommand::VERSION);
    assert_eq!(info.build_date, VersionCommand::BUILD_DATE);
    assert_eq!(info.platform, "linux");
    assert_eq!(info.description, "Polyglot Transpilation Development Reference Implementation");
    assert_eq!(info.repository, "https://github.com/ai-ptd-dev/ptd-ruby-cli");
    assert_eq!(info.ruby_version, "Rust 1.75");
}

#[test]
fn banner_is_drawn_line_by_line() {
    let cmd = VersionCommand::new(false);
    let info = cmd.build_version_info("1.75", "linux");
    let lines = cmd.display_formatted(&info);
    let expected = vec![
        "╔═══════════════════════════════════════════════════════════╗",
        "║                    PTD Ruby CLI (Rust)                    ║",
        "╠═══════════════════════════════════════════════════════════╣",
        "║ Version:      1.0.0                                        ║",
        "║ Build Date:   2025-01-15                                   ║",
        "║ Rust Version: Rust 1.75                                    ║",
        "║ Platform:     linux                                        ║",
        "╠═══════════════════════════════════════════════════════════╣",
        "║ Polyglot Transpilation Development Reference Implementation ║",
        "╚═══════════════════════════════════════════════════════════╝",
    ];
    assert_eq!(lines, expected);
    assert_eq!(lines[3], format!("║ Version:      {:44} ║", "1.0.0"));
    assert_eq!(
        lines[8],
        format!("║ {:^57} ║", "Polyglot Transpilation Development Reference Implementation")
    );
}

#[test]
fn a_short_description_is_centred_with_the_odd_space_on_the_right() {
    let cmd = VersionCommand::new(false);
    let mut info = cmd.build_version_info("1.75", "linux");
    info.description = "tool".to_string();
    let lines = cmd.display_formatted(&info);
    assert_eq!(lines[8], format!("║ {:^57} ║", "tool"));
    info.platform = "x".repeat(50);
    let lines = cmd.display_formatted(&info);
    assert_eq!(lines[6], format!("║ Platform:     {:44} ║", "x".repeat(50)));
}

#[test]
fn the_runtime_is_named_with_its_version() {
    assert_eq!(runtime_label("1.75"), "Rust 1.75");
    assert_eq!(runtime_label(""), "Rust ");
}
