//! What to tell the user when a command is missing.
//!
//! Guidance comes from exactly one of three tiers. A configured entry wins
//! wherever it yields a link or messages, each taken from the override of the
//! platform if that has one and from the command-wide default otherwise. Else
//! a built-in table of well-known tools answers, and for every other command
//! a generic suggestion of the platform's package managers.

use vstd::prelude::*;
use vstd::string::*;
use crate::config::{override_for, CommandConfig, CommandConfigView, Config, PlatformConfigView};
use crate::platform::Platform;
use crate::text::{appended, str_eq, texts};

verus! {

/// The source that guidance was taken from.
#[derive(Debug, Clone, Copy, PartialEq, Eq, Structural)]
pub enum Tier {
    /// The user's configuration.
    Configured,
    /// The built-in table of well-known tools.
    BuiltIn,
    /// The generic package-manager suggestion.
    Generic,
}

/// Guidance to display: a heading and the lines under it, in order.
#[derive(Debug, Clone, PartialEq, Eq)]
pub struct Guidance {
    pub tier: Tier,
    pub heading: String,
    pub lines: Vec<String>,
}

/// What a `Guidance` stands for.
pub struct GuidanceView {
    pub tier: Tier,
    pub heading: Seq<char>,
    pub lines: Seq<Seq<char>>,
}

impl View for Guidance {
    type V = GuidanceView;

    open spec fn view(&self) -> GuidanceView {
        GuidanceView { tier: self.tier, heading: self.heading@, lines: texts(self.lines@) }
    }
}

/// The link of an entry on `platform`: that of the platform's override if it
/// has one, else the command-wide one.
pub open spec fn effective_url(entry: CommandConfigView, platform: Platform) -> Option<Seq<char>> {
    match override_for(entry, platform) {
        Some(over) => if over.url is Some {
            over.url
        } else {
            entry.url
        },
        None => entry.url,
    }
}

/// The messages of an entry on `platform`: those of the platform's override
/// if it has any, else the command-wide ones.
pub open spec fn effective_messages(entry: CommandConfigView, platform: Platform) -> Option<
    Seq<Seq<char>>,
> {
    match override_for(entry, platform) {
        Some(over) => if over.messages is Some {
            over.messages
        } else {
            entry.messages
        },
        None => entry.messages,
    }
}

/// The line that shows a link.
pub open spec fn url_line(url: Seq<char>) -> Seq<char> {
    "  Visit: "@ + url
}

/// The line that shows a message.
pub open spec fn message_line(message: Seq<char>) -> Seq<char> {
    "  "@ + message
}

/// The lines of configured guidance: the link, if any, then the messages.
pub open spec fn configured_lines(url: Option<Seq<char>>, messages: Option<Seq<Seq<char>>>) -> Seq<
    Seq<char>,
> {
    let first = match url {
        Some(u) => seq![url_line(u)],
        None => Seq::empty(),
    };
    let rest = match messages {
        Some(m) => Seq::new(m.len(), |i: int| message_line(m[i])),
        None => Seq::empty(),
    };
    first + rest
}

/// What an entry configures for `platform`: nothing if it yields neither a
/// link nor messages.
pub open spec fn configured_guidance(entry: CommandConfigView, platform: Platform) -> Option<
    GuidanceView,
> {
    let url = effective_url(entry, platform);
    let messages = effective_messages(entry, platform);
    if url is None && messages is None {
        None
    } else {
        Some(
            GuidanceView {
                tier: Tier::Configured,
                heading: "To install, you can:"@,
                lines: configured_lines(url, messages),
            },
        )
    }
}

/// The built-in table: for a well-known tool, the heading and the
/// instruction to show. Names match exactly.
pub open spec fn builtin_hint(command: Seq<char>) -> Option<(Seq<char>, Seq<char>)> {
    if command == "bun"@ {
        Some(("To install Bun, you can run:"@, "  curl -fsSL https://bun.sh/install | bash"@))
    } else if command == "npm"@ {
        Some(("npm comes with Node.js. To install Node.js:"@, "  Visit: https://nodejs.org/"@))
    } else if command == "yarn"@ {
        Some(("To install Yarn, you can run:"@, "  npm install -g yarn"@))
    } else if command == "pnpm"@ {
        Some(("To install pnpm, you can run:"@, "  npm install -g pnpm"@))
    } else if command == "cargo"@ || command == "rustc"@ || command == "rustup"@ {
        Some(
            (
                "To install Rust and Cargo, you can run:"@,
                "  curl --proto '=https' --tlsv1.2 -sSf https://sh.rustup.rs | sh"@,
            ),
        )
    } else if command == "go"@ {
        Some(("To install Go, visit:"@, "  https://golang.org/doc/install"@))
    } else if command == "python"@ || command == "python3"@ {
        Some(("To install Python, visit:"@, "  https://www.python.org/downloads/"@))
    } else if command == "pip"@ || command == "pip3"@ {
        Some(("pip comes with Python. To install Python:"@, "  https://www.python.org/downloads/"@))
    } else if command == "docker"@ {
        Some(("To install Docker, visit:"@, "  https://docs.docker.com/get-docker/"@))
    } else if command == "git"@ {
        Some(("To install Git, visit:"@, "  https://git-scm.com/downloads"@))
    } else {
        None
    }
}

/// The package-manager suggestions for `command` on `platform`. On an
/// unknown platform they cover all the known ones.
pub open spec fn generic_lines(command: Seq<char>, platform: Platform) -> Seq<Seq<char>> {
    match platform {
        Platform::Windows => seq![
            "  • Windows (winget): winget install "@ + command,
            "  • Windows (Chocolatey): choco install "@ + command,
            "  • Windows (Scoop): scoop install "@ + command,
        ],
        Platform::MacOS => seq![
            "  • macOS (Homebrew): brew install "@ + command,
            "  • macOS (MacPorts): sudo port install "@ + command,
        ],
        Platform::Linux => seq![
            "  • Ubuntu/Debian: sudo apt install "@ + command,
            "  • Fedora/RHEL: sudo dnf install "@ + command,
            "  • Arch Linux: sudo pacman -S "@ + command,
        ],
        Platform::Unknown => seq![
            "  • macOS (Homebrew): brew install "@ + command,
            "  • Ubuntu/Debian: sudo apt install "@ + command,
            "  • Fedora/RHEL: sudo dnf install "@ + command,
            "  • Arch Linux: sudo pacman -S "@ + command,
            "  • Windows (winget): winget install "@ + command,
        ],
    }
}

/// The guidance for a command that nothing is configured for: the built-in
/// table's, or the generic suggestion where the table has none.
pub open spec fn fallback_guidance(command: Seq<char>, platform: Platform) -> GuidanceView {
    match builtin_hint(command) {
        Some((heading, line)) => GuidanceView { tier: Tier::BuiltIn, heading, lines: seq![line] },
        None => GuidanceView {
            tier: Tier::Generic,
            heading: "Try installing it using your system's package manager:"@,
            lines: generic_lines(command, platform),
        },
    }
}

/// The guidance for `command` on `platform` under a configuration.
pub open spec fn guidance_spec(
    command: Seq<char>,
    platform: Platform,
    config: Map<Seq<char>, CommandConfigView>,
) -> GuidanceView {
    if config.contains_key(command) && configured_guidance(config[command], platform) is Some {
        configured_guidance(config[command], platform)->0
    } else {
        fallback_guidance(command, platform)
    }
}

/// The tiers exclude one another, and each is used exactly when it applies:
/// the configuration when its entry yields a link or messages, the built-in
/// table when nothing is configured and the table knows the command, the
/// generic suggestion in every other case.
pub proof fn lemma_one_tier(
    command: Seq<char>,
    platform: Platform,
    config: Map<Seq<char>, CommandConfigView>,
)
    ensures
        ({
            let configured = config.contains_key(command) && (effective_url(
                config[command],
                platform,
            ) is Some || effective_messages(config[command], platform) is Some);
            let tier = guidance_spec(command, platform, config).tier;
            &&& tier == Tier::Configured <==> configured
            &&& tier == Tier::BuiltIn <==> !configured && builtin_hint(command) is Some
            &&& tier == Tier::Generic <==> !configured && builtin_hint(command) is None
        }),
{
}

/// Configured guidance shows what is configured and nothing else: with a
/// command-wide link and messages and no override for the platform, the lines
/// are the link followed by every message, in order, and none of them comes
/// from the generic suggestion.
pub proof fn lemma_command_wide_guidance(
    command: Seq<char>,
    platform: Platform,
    config: Map<Seq<char>, CommandConfigView>,
    url: Seq<char>,
    messages: Seq<Seq<char>>,
)
    requires
        config.contains_key(command),
        config[command].url == Some(url),
        config[command].messages == Some(messages),
        override_for(config[command], platform) is None,
    ensures
        guidance_spec(command, platform, config).tier == Tier::Configured,
        guidance_spec(command, platform, config).lines.len() == 1 + messages.len(),
        guidance_spec(command, platform, config).lines[0] == url_line(url),
        forall|i: int|
            0 <= i < messages.len() ==> #[trigger] guidance_spec(command, platform, config).lines[i
                + 1] == message_line(messages[i]),
{
}

/// An override decides alone where it speaks: with a link and messages in
/// the override of the platform, the guidance shows exactly those, whatever
/// the command-wide defaults and the other platforms' overrides hold.
pub proof fn lemma_override_wins(
    command: Seq<char>,
    platform: Platform,
    config: Map<Seq<char>, CommandConfigView>,
    url: Seq<char>,
    messages: Seq<Seq<char>>,
)
    requires
        config.contains_key(command),
        override_for(config[command], platform) == Some(
            PlatformConfigView { url: Some(url), messages: Some(messages) },
        ),
    ensures
        guidance_spec(command, platform, config).tier == Tier::Configured,
        guidance_spec(command, platform, config).lines == configured_lines(
            Some(url),
            Some(messages),
        ),
{
}

/// Guidance never blends platforms: it depends on the command-wide defaults
/// and on the override of the one platform only, so two configurations that
/// agree on those give the same guidance. On an unknown platform no override
/// applies and the command-wide defaults are shown.
pub proof fn lemma_no_blend(
    command: Seq<char>,
    platform: Platform,
    first: Map<Seq<char>, CommandConfigView>,
    second: Map<Seq<char>, CommandConfigView>,
)
    requires
        first.contains_key(command),
        second.contains_key(command),
        first[command].url == second[command].url,
        first[command].messages == second[command].messages,
        override_for(first[command], platform) == override_for(second[command], platform),
    ensures
        guidance_spec(command, platform, first) == guidance_spec(command, platform, second),
        effective_url(first[command], Platform::Unknown) == first[command].url,
        effective_messages(first[command], Platform::Unknown) == first[command].messages,
{
}

/// A guidance of one line from the built-in table.
fn builtin(heading: &str, line: &str) -> (hint: Guidance)
    ensures
        hint@ == (GuidanceView { tier: Tier::BuiltIn, heading: heading@, lines: seq![line@] }),
{
    let mut lines: Vec<String> = Vec::new();
    lines.push(line.to_owned());
    assert(texts(lines@) =~= seq![line@]);
    Guidance { tier: Tier::BuiltIn, heading: heading.to_owned(), lines }
}

/// The built-in table's guidance for `command`, if the table knows it.
pub fn builtin_guidance(command: &str) -> (hint: Option<Guidance>)
    ensures
        match hint {
            Some(g) => builtin_hint(command@) matches Some((heading, line)) && g@ == (GuidanceView {
                tier: Tier::BuiltIn,
                heading,
                lines: seq![line],
            }),
            None => builtin_hint(command@) is None,
        },
{
    if str_eq(command, "bun") {
        Some(builtin("To install Bun, you can run:", "  curl -fsSL https://bun.sh/install | bash"))
    } else if str_eq(command, "npm") {
        Some(builtin("npm comes with Node.js. To install Node.js:", "  Visit: https://nodejs.org/"))
    } else if str_eq(command, "yarn") {
        Some(builtin("To install Yarn, you can run:", "  npm install -g yarn"))
    } else if str_eq(command, "pnpm") {
        Some(builtin("To install pnpm, you can run:", "  npm install -g pnpm"))
    } else if str_eq(command, "cargo") || str_eq(command, "rustc") || str_eq(command, "rustup") {
        Some(
            builtin(
                "To install Rust and Cargo, you can run:",
                "  curl --proto '=https' --tlsv1.2 -sSf https://sh.rustup.rs | sh",
            ),
        )
    } else if str_eq(command, "go") {
        Some(builtin("To install Go, visit:", "  https://golang.org/doc/install"))
    } else if str_eq(command, "python") || str_eq(command, "python3") {
        Some(builtin("To install Python, visit:", "  https://www.python.org/downloads/"))
    } else if str_eq(command, "pip") || str_eq(command, "pip3") {
        Some(builtin("pip comes with Python. To install Python:", "  https://www.python.org/downloads/"))
    } else if str_eq(command, "docker") {
        Some(builtin("To install Docker, visit:", "  https://docs.docker.com/get-docker/"))
    } else if str_eq(command, "git") {
        Some(builtin("To install Git, visit:", "  https://git-scm.com/downloads"))
    } else {
        None
    }
}

/// The generic suggestion: how to install `command` with the package
/// managers of `platform`.
pub fn generic_guidance(command: &str, platform: Platform) -> (hint: Guidance)
    ensures
        hint@ == (GuidanceView {
            tier: Tier::Generic,
            heading: "Try installing it using your system's package manager:"@,
            lines: generic_lines(command@, platform),
        }),
{
    let mut lines: Vec<String> = Vec::new();
    match platform {
        Platform::Windows => {
            lines.push(appended("  • Windows (winget): winget install ", command));
            lines.push(appended("  • Windows (Chocolatey): choco install ", command));
            lines.push(appended("  • Windows (Scoop): scoop install ", command));
        },
        Platform::MacOS => {
            lines.push(appended("  • macOS (Homebrew): brew install ", command));
            lines.push(appended("  • macOS (MacPorts): sudo port install ", command));
        },
        Platform::Linux => {
            lines.push(appended("  • Ubuntu/Debian: sudo apt install ", command));
            lines.push(appended("  • Fedora/RHEL: sudo dnf install ", command));
            lines.push(appended("  • Arch Linux: sudo pacman -S ", command));
        },
        Platform::Unknown => {
            lines.push(appended("  • macOS (Homebrew): brew install ", command));
            lines.push(appended("  • Ubuntu/Debian: sudo apt install ", command));
            lines.push(appended("  • Fedora/RHEL: sudo dnf install ", command));
            lines.push(appended("  • Arch Linux: sudo pacman -S ", command));
            lines.push(appended("  • Windows (winget): winget install ", command));
        },
    }
    assert(texts(lines@) =~= generic_lines(command@, platform));
    Guidance {
        tier: Tier::Generic,
        heading: "Try installing it using your system's package manager:".to_owned(),
        lines,
    }
}

/// The guidance for a command that nothing is configured for: the built-in
/// table's instruction for a well-known tool, else the generic suggestion.
pub fn provide_installation_hint(command: &str, current_os: Platform) -> (hint: Guidance)
    ensures
        hint@ == fallback_guidance(command@, current_os),
{
    match builtin_guidance(command) {
        Some(hint) => hint,
        None => generic_guidance(command, current_os),
    }
}

/// What an entry configures for `platform`, if it yields a link or messages.
pub fn configured_guidance_for(entry: &CommandConfig, platform: Platform) -> (hint: Option<Guidance>)
    ensures
        match hint {
            Some(g) => configured_guidance(entry@, platform) == Some(g@),
            None => configured_guidance(entry@, platform) is None,
        },
{
    let over = entry.platform_config(platform);
    let url: Option<&String> = match over {
        Some(o) => match &o.url {
            Some(u) => Some(u),
            None => entry.url.as_ref(),
        },
        None => entry.url.as_ref(),
    };
    let messages: Option<&Vec<String>> = match over {
        Some(o) => match &o.messages {
            Some(m) => Some(m),
            None => entry.messages.as_ref(),
        },
        None => entry.messages.as_ref(),
    };
    assert(match url {
        Some(u) => effective_url(entry@, platform) == Some(u@),
        None => effective_url(entry@, platform) is None,
    });
    assert(match messages {
        Some(m) => effective_messages(entry@, platform) == Some(texts(m@)),
        None => effective_messages(entry@, platform) is None,
    });
    if url.is_none() && messages.is_none() {
        return None;
    }
    let mut lines: Vec<String> = Vec::new();
    if let Some(u) = url {
        lines.push(appended("  Visit: ", u.as_str()));
    }
    let ghost first = texts(lines@);
    if let Some(m) = messages {
        let mut i: usize = 0;
        while i < m.len()
            invariant
                i <= m.len(),
                lines.len() == first.len() + i,
                texts(lines@) == first + Seq::new(i as nat, |k: int| message_line(texts(m@)[k])),
            decreases m.len() - i,
        {
            let ghost before = lines@;
            lines.push(appended("  ", m[i].as_str()));
            i += 1;
            assert forall|k: int| 0 <= k < lines.len() implies texts(lines@)[k] == (first + Seq::new(
                i as nat,
                |k: int| message_line(texts(m@)[k]),
            ))[k] by {
                if k < lines.len() - 1 {
                    assert(texts(before)[k] == lines[k]@);
                }
            }
            assert(texts(lines@) =~= first + Seq::new(
                i as nat,
                |k: int| message_line(texts(m@)[k]),
            ));
        }
    }
    assert(texts(lines@) =~= configured_lines(
        effective_url(entry@, platform),
        effective_messages(entry@, platform),
    ));
    Some(Guidance { tier: Tier::Configured, heading: "To install, you can:".to_owned(), lines })
}

/// Decides what guidance to show for `command` on `platform`: the entry of
/// the configuration where it yields any, else the built-in table's
/// instruction, else the generic suggestion.
pub fn guidance_for(command: &str, platform: Platform, config: &Config) -> (hint: Guidance)
    ensures
        hint@ == guidance_spec(command@, platform, config@),
{
    if let Some(entry) = config.get(command) {
        if let Some(hint) = configured_guidance_for(entry, platform) {
            return hint;
        }
    }
    provide_installation_hint(command, platform)
}

} // verus!
