use run_this::config::{CommandConfig, Config, ConfigSource, PlatformConfig};
use run_this::guidance::{guidance_for, Tier};
use run_this::invocation::{exit_status, Outcome};
use run_this::platform::Platform;
use run_this::report::{not_found_report, Line};

fn text_of(lines: &Vec<Line>) -> String {
    let mut out = String::new();
    for line in lines {
        out.push_str(&line.plain_text());
        out.push('\n');
    }
    out
}

fn over(url: &str, message: &str) -> Option<PlatformConfig> {
    Some(PlatformConfig { url: Some(url.to_string()), messages: Some(vec![message.to_string()]) })
}

fn layered() -> Config {
    let entry = CommandConfig {
        url: Some("https://default.example.com".to_string()),
        messages: Some(vec!["Default message".to_string()]),
        windows: over("https://windows.example.com", "Windows specific message"),
        macos: over("https://macos.example.com", "macOS specific message"),
        linux: over("https://linux.example.com", "Linux specific message"),
    };
    let mut config = Config::new();
    config.insert("platform-test-cmd".to_string(), entry);
    config
}

#[test]
fn test_platform_specific_config() {
    let status = exit_status(Outcome::NotFound);
    let stderr = text_of(&not_found_report(
        "platform-test-cmd",
        Platform::Linux,
        ConfigSource::Loaded(layered()),
    ));

    assert_eq!(status, 127);
    assert!(stderr.contains("Command not found"));
    assert!(stderr.contains("platform-test-cmd"));

    let has_platform_specific = stderr.contains("https://windows.example.com")
        || stderr.contains("https://macos.example.com")
        || stderr.contains("https://linux.example.com")
        || stderr.contains("https://default.example.com");

    assert!(
        has_platform_specific,
        "Should contain either platform-specific or default URL"
    );

    let has_platform_message = stderr.contains("Windows specific message")
        || stderr.contains("macOS specific message")
        || stderr.contains("Linux specific message")
        || stderr.contains("Default message");

    assert!(
        has_platform_message,
        "Should contain either platform-specific or default message"
    );
}

#[test]
fn each_platform_shows_its_own_override_only() {
    let config = layered();
    let cases = [
        (Platform::Windows, "https://windows.example.com", "Windows specific message"),
        (Platform::MacOS, "https://macos.example.com", "macOS specific message"),
        (Platform::Linux, "https://linux.example.com", "Linux specific message"),
        (Platform::Unknown, "https://default.example.com", "Default message"),
    ];
    for (platform, url, message) in cases {
        let guidance = guidance_for("platform-test-cmd", platform, &config);
        assert_eq!(guidance.tier, Tier::Configured);
        assert_eq!(guidance.heading, "To install, you can:");
        assert_eq!(guidance.lines, vec![format!("  Visit: {}", url), format!("  {}", message)]);
    }
}

#[test]
fn link_and_messages_cascade_independently() {
    let entry = CommandConfig {
        url: Some("https://default.example.com".to_string()),
        messages: Some(vec!["Default message".to_string()]),
        windows: Some(PlatformConfig { url: Some("https://windows.example.com".to_string()), messages: None }),
        macos: Some(PlatformConfig { url: None, messages: Some(vec!["brew it".to_string(), "twice".to_string()]) }),
        linux: Some(PlatformConfig::new()),
    };
    let mut config = Config::new();
    config.insert("tool".to_string(), entry);

    let windows = guidance_for("tool", Platform::Windows, &config);
    assert_eq!(windows.lines, vec!["  Visit: https://windows.example.com", "  Default message"]);
    let macos = guidance_for("tool", Platform::MacOS, &config);
    assert_eq!(macos.lines, vec!["  Visit: https://default.example.com", "  brew it", "  twice"]);
    let linux = guidance_for("tool", Platform::Linux, &config);
    assert_eq!(linux.lines, vec!["  Visit: https://default.example.com", "  Default message"]);
}

#[test]
fn override_alone_is_enough_to_configure() {
    let mut entry = CommandConfig::new();
    entry.linux = Some(PlatformConfig { url: None, messages: Some(vec![]) });
    let mut config = Config::new();
    config.insert("git".to_string(), entry);

    let linux = guidance_for("git", Platform::Linux, &config);
    assert_eq!(linux.tier, Tier::Configured);
    assert!(linux.lines.is_empty());
    let macos = guidance_for("git", Platform::MacOS, &config);
    assert_eq!(macos.tier, Tier::BuiltIn);
}
