//! Install guidance that a user configures: per command, with optional
//! overrides per platform laid over the command-wide defaults.

use vstd::prelude::*;
use vstd::hash_map::StringHashMap;
use crate::platform::Platform;
use crate::text::texts;

verus! {

/// Guidance for one command on one platform. A field that is absent gives no
/// override at this level; it does not stand for an empty value.
#[derive(Debug, Clone, PartialEq, Eq)]
pub struct PlatformConfig {
    pub url: Option<String>,
    pub messages: Option<Vec<String>>,
}

/// Guidance for one command: the command-wide defaults and up to three
/// overrides. An entry with nothing in it is legal and configures nothing.
#[derive(Debug, Clone, PartialEq, Eq)]
pub struct CommandConfig {
    pub url: Option<String>,
    pub messages: Option<Vec<String>>,
    pub windows: Option<PlatformConfig>,
    pub macos: Option<PlatformConfig>,
    pub linux: Option<PlatformConfig>,
}

/// The configured guidance, by command name. Names are case-sensitive and
/// each has at most one entry.
pub struct Config {
    commands: StringHashMap<CommandConfig>,
}

/// What reading the configuration file came to.
pub enum ConfigSource {
    /// There is no configuration file.
    Missing,
    /// The file could not be read; the text is the cause.
    Unreadable(String),
    /// The file does not hold a configuration; the text is the cause.
    Malformed(String),
    /// The configuration that the file holds.
    Loaded(Config),
}

/// What a `PlatformConfig` stands for.
pub struct PlatformConfigView {
    pub url: Option<Seq<char>>,
    pub messages: Option<Seq<Seq<char>>>,
}

/// What a `CommandConfig` stands for.
pub struct CommandConfigView {
    pub url: Option<Seq<char>>,
    pub messages: Option<Seq<Seq<char>>>,
    pub windows: Option<PlatformConfigView>,
    pub macos: Option<PlatformConfigView>,
    pub linux: Option<PlatformConfigView>,
}

/// The text of an optional string.
pub open spec fn url_view(url: Option<String>) -> Option<Seq<char>> {
    match url {
        Some(u) => Some(u@),
        None => None,
    }
}

/// The texts of an optional list of strings.
pub open spec fn messages_view(messages: Option<Vec<String>>) -> Option<Seq<Seq<char>>> {
    match messages {
        Some(m) => Some(texts(m@)),
        None => None,
    }
}

/// The view of an optional override.
pub open spec fn override_view(over: Option<PlatformConfig>) -> Option<PlatformConfigView> {
    match over {
        Some(o) => Some(o@),
        None => None,
    }
}

impl View for PlatformConfig {
    type V = PlatformConfigView;

    open spec fn view(&self) -> PlatformConfigView {
        PlatformConfigView { url: url_view(self.url), messages: messages_view(self.messages) }
    }
}

impl View for CommandConfig {
    type V = CommandConfigView;

    open spec fn view(&self) -> CommandConfigView {
        CommandConfigView {
            url: url_view(self.url),
            messages: messages_view(self.messages),
            windows: override_view(self.windows),
            macos: override_view(self.macos),
            linux: override_view(self.linux),
        }
    }
}

impl View for Config {
    type V = Map<Seq<char>, CommandConfigView>;

    closed spec fn view(&self) -> Map<Seq<char>, CommandConfigView> {
        self.commands@.map_values(|entry: CommandConfig| entry@)
    }
}

/// The configuration that a source amounts to: its own if it holds one, the
/// empty one otherwise.
pub open spec fn config_of(source: ConfigSource) -> Map<Seq<char>, CommandConfigView> {
    match source {
        ConfigSource::Loaded(config) => config@,
        _ => Map::empty(),
    }
}

/// The override of an entry that applies on `platform`. No override applies
/// on an unknown platform.
pub open spec fn override_for(entry: CommandConfigView, platform: Platform) -> Option<
    PlatformConfigView,
> {
    match platform {
        Platform::Windows => entry.windows,
        Platform::MacOS => entry.macos,
        Platform::Linux => entry.linux,
        Platform::Unknown => None,
    }
}

impl PlatformConfig {
    /// An override that overrides nothing.
    pub fn new() -> (empty: PlatformConfig)
        ensures
            empty@ == (PlatformConfigView { url: None, messages: None }),
    {
        PlatformConfig { url: None, messages: None }
    }
}

impl CommandConfig {
    /// An entry that configures nothing.
    pub fn new() -> (empty: CommandConfig)
        ensures
            empty@ == (CommandConfigView {
                url: None,
                messages: None,
                windows: None,
                macos: None,
                linux: None,
            }),
    {
        CommandConfig { url: None, messages: None, windows: None, macos: None, linux: None }
    }

    /// The override that applies on `platform`, if the entry has one.
    pub fn platform_config(&self, platform: Platform) -> (over: Option<&PlatformConfig>)
        ensures
            match over {
                Some(o) => override_for(self@, platform) == Some(o@),
                None => override_for(self@, platform) is None,
            },
    {
        match platform {
            Platform::Windows => self.windows.as_ref(),
            Platform::MacOS => self.macos.as_ref(),
            Platform::Linux => self.linux.as_ref(),
            Platform::Unknown => None,
        }
    }
}

impl Config {
    /// The configuration with no entry, which is also what an absent or
    /// unreadable configuration file amounts to.
    pub fn new() -> (empty: Config)
        ensures
            empty@ == Map::<Seq<char>, CommandConfigView>::empty(),
    {
        let empty = Config { commands: StringHashMap::new() };
        assert(empty@ =~= Map::<Seq<char>, CommandConfigView>::empty());
        empty
    }

    /// Sets the entry of `command`, in place of any it had.
    pub fn insert(&mut self, command: String, entry: CommandConfig)
        ensures
            final(self)@ == old(self)@.insert(command@, entry@),
    {
        self.commands.insert(command, entry);
        assert(self@ =~= old(self)@.insert(command@, entry@));
    }

    /// The entry of `command`, if it has one. Names match exactly.
    pub fn get(&self, command: &str) -> (entry: Option<&CommandConfig>)
        ensures
            match entry {
                Some(e) => self@.contains_key(command@) && self@[command@] == e@,
                None => !self@.contains_key(command@),
            },
    {
        self.commands.get(command)
    }

    /// Whether no command has an entry.
    pub fn is_empty(&self) -> (empty: bool)
        ensures
            empty == (self@ == Map::<Seq<char>, CommandConfigView>::empty()),
    {
        let empty = self.commands.is_empty();
        proof {
            if empty {
                assert(self@ =~= Map::<Seq<char>, CommandConfigView>::empty());
            } else {
                let k = choose|k: Seq<char>| self.commands@.contains_key(k);
                assert(self.commands@.contains_key(k));
                assert(self@.contains_key(k));
            }
        }
        empty
    }
}

} // verus!
