use cpx::config::{add_comments_to_config, classify_line, user_config_path, ConfigAction, ConfigCommand, ConfigEnvironment, LineKind};
use cpx::progress_bar::{colorize, finish_message, ProgressBarStyle, ProgressOptions};
use cpx::text::{decimal_text, join_path, split_lines};

fn env(dir: Option<&str>, project: bool, user: bool, system: bool) -> ConfigEnvironment {
    ConfigEnvironment {
        config_dir: dir.map(|d| d.to_string()),
        project_exists: project,
        user_exists: user,
        system_exists: system,
        displayed_system_exists: system,
    }
}

#[test]
fn colorize_known_and_unknown_colors() {
    assert_eq!(colorize("msg", "red"), "{msg:.red}");
    assert_eq!(colorize("wide_bar", "white"), "{wide_bar:.white}");
    assert_eq!(colorize("msg", "purple"), "{msg}");
    assert_eq!(colorize("msg", ""), "{msg}");
}

#[test]
fn default_template_and_chars() {
    let o = ProgressOptions::default();
    assert_eq!(o.template(), "{msg:.white} {percent}% {wide_bar:.white} ETA:{eta_precise}");
    assert_eq!(o.progress_chars(), "█░░");
    assert_eq!(o.initial_message(4), "Copying");
}

#[test]
fn detailed_template_and_message() {
    let mut o = ProgressOptions::default();
    o.style = ProgressBarStyle::Detailed;
    o.bar_color = "teal".to_string();
    assert_eq!(
        o.template(),
        "{msg:.white} {wide_bar} {percent:>3}% • {binary_bytes}/{binary_total_bytes} • {binary_bytes_per_sec} • Elapsed: {elapsed_precise} • ETA:{eta_precise}"
    );
    assert_eq!(o.initial_message(42), "Copying: 0/42 files");
    assert_eq!(o.initial_message(0), "Copying: 0/0 files");
}

#[test]
fn comments_are_added_above_sections() {
    let out = add_comments_to_config("[copy]\nparallel = 4\n[progress.bar]\nfilled = \"#\"\n");
    let expected = "# cpx configuration file\n# For more information, see: https://github.com/11happy/cpx/docs/configuration.md\n\n\n# Copy operation settings\n[copy]\nparallel = 4\n# Progress bar characters\n[progress.bar]\nfilled = \"#\"\n";
    assert_eq!(out, expected);
}

#[test]
fn comments_keep_a_final_bare_carriage_return() {
    let out = add_comments_to_config("x\r");
    assert!(out.ends_with("\n\nx\r\n"));
    let out = add_comments_to_config("x\r\n");
    assert!(out.ends_with("\n\nx\n"));
}

#[test]
fn path_reports_displayed_system_file_only() {
    let e = ConfigEnvironment {
        config_dir: None,
        project_exists: false,
        user_exists: false,
        system_exists: true,
        displayed_system_exists: false,
    };
    match ConfigCommand::Path.execute(&e) {
        ConfigAction::ShowPath { effective } => assert!(effective.is_none()),
        other => panic!("unexpected {:?}", other),
    }
    assert!(matches!(ConfigCommand::Show.execute(&e), ConfigAction::ShowEffective));
}

#[test]
fn finish_messages() {
    assert_eq!(finish_message(ProgressBarStyle::Detailed, false, 12), "Copied 12 files successfully");
    assert_eq!(finish_message(ProgressBarStyle::Detailed, true, 12), "Done");
    assert_eq!(finish_message(ProgressBarStyle::Default, false, 12), "Done");
    assert_eq!(decimal_text(0), "0");
    assert_eq!(decimal_text(1234567890), "1234567890");
}

#[test]
fn comments_on_empty_text_give_header_only() {
    let out = add_comments_to_config("");
    assert_eq!(
        out,
        "# cpx configuration file\n# For more information, see: https://github.com/11happy/cpx/docs/configuration.md\n\n"
    );
}

#[test]
fn split_lines_matches_std() {
    for text in ["", "a", "a\n", "a\r\nb", "\n\nx\n", "k = v\r\n[s]\n", "x\r", "foo\r\nbar\n\nbaz\r", "\r\n", "\r"] {
        let expected: Vec<String> = text.lines().map(|l| l.to_string()).collect();
        assert_eq!(split_lines(text), expected, "text {:?}", text);
    }
}

#[test]
fn join_paths() {
    assert_eq!(join_path("/home/u/.config", "cpx"), "/home/u/.config/cpx");
    assert_eq!(join_path("/home/u/.config/", "cpx"), "/home/u/.config/cpx");
    assert_eq!(user_config_path("/c"), "/c/cpx/cpxconfig.toml");
}

#[test]
fn init_decisions() {
    let c = ConfigCommand::Init { force: false };
    assert!(matches!(c.execute(&env(None, false, false, false)), ConfigAction::NoConfigDirectory));
    match c.execute(&env(Some("/c"), false, true, false)) {
        ConfigAction::AlreadyExists { path } => assert_eq!(path, "/c/cpx/cpxconfig.toml"),
        other => panic!("unexpected {:?}", other),
    }
    let c = ConfigCommand::Init { force: true };
    match c.execute(&env(Some("/c"), false, true, false)) {
        ConfigAction::WriteDefault { directory, path } => {
            assert_eq!(directory, "/c/cpx");
            assert_eq!(path, "/c/cpx/cpxconfig.toml");
        }
        other => panic!("unexpected {:?}", other),
    }
}

#[test]
fn show_and_path_decisions() {
    assert!(matches!(ConfigCommand::Show.execute(&env(Some("/c"), false, false, false)), ConfigAction::NoConfigFiles));
    assert!(matches!(ConfigCommand::Show.execute(&env(None, false, false, true)), ConfigAction::ShowEffective));
    match ConfigCommand::Path.execute(&env(Some("/c"), false, true, true)) {
        ConfigAction::ShowPath { effective } => assert_eq!(effective.as_deref(), Some("/c/cpx/cpxconfig.toml")),
        other => panic!("unexpected {:?}", other),
    }
    match ConfigCommand::Path.execute(&env(Some("/c"), true, true, true)) {
        ConfigAction::ShowPath { effective } => assert_eq!(effective.as_deref(), Some("./cpxconfig.toml")),
        other => panic!("unexpected {:?}", other),
    }
    match ConfigCommand::Path.execute(&env(None, false, false, true)) {
        ConfigAction::ShowPath { effective } => assert_eq!(effective.as_deref(), Some("/etc/cpx/config.toml")),
        other => panic!("unexpected {:?}", other),
    }
    match ConfigCommand::Path.execute(&env(None, false, false, false)) {
        ConfigAction::ShowPath { effective } => assert!(effective.is_none()),
        other => panic!("unexpected {:?}", other),
    }
}

#[test]
fn line_classification() {
    assert!(matches!(classify_line("[copy]"), LineKind::Section));
    match classify_line("mode = \"a=b\"") {
        LineKind::Assignment { key, value } => {
            assert_eq!(key, "mode ");
            assert_eq!(value, " \"a=b\"");
        }
        other => panic!("unexpected {:?}", other),
    }
    assert!(matches!(classify_line("# note"), LineKind::Other));
}
