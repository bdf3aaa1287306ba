//! What the command line supplied: the network selector and the flags, as
//! plain values. A flag that was not given is absent here; the defaults that
//! the record declares are applied when the record is resolved.

use vstd::prelude::*;
use vstd::string::*;
use crate::fields::Field;
use crate::text::{owned_text, same_text, text_of};

verus! {

/// The literal that a presence-only flag stands for.
pub const TRUTHY: &'static str = "true";

/// A well-known network that the positional selector can name.
#[derive(Clone, Copy, Debug, PartialEq, Eq, Structural)]
pub enum Chain {
    Westend,
    Kusama,
    Polkadot,
}

impl Chain {
    /// Every network, once.
    pub open spec fn spec_all() -> Seq<Chain> {
        seq![Chain::Westend, Chain::Kusama, Chain::Polkadot]
    }

    /// Every network, once.
    pub fn all() -> (r: Vec<Chain>)
        ensures
            r@ == Chain::spec_all(),
    {
        vec![Chain::Westend, Chain::Kusama, Chain::Polkadot]
    }

    /// The name that selects the network.
    pub open spec fn spec_name(self) -> Seq<char> {
        match self {
            Chain::Westend => "westend"@,
            Chain::Kusama => "kusama"@,
            Chain::Polkadot => "polkadot"@,
        }
    }

    /// The name that selects the network.
    pub fn name(self) -> (r: &'static str)
        ensures
            r@ == self.spec_name(),
    {
        match self {
            Chain::Westend => "westend",
            Chain::Kusama => "kusama",
            Chain::Polkadot => "polkadot",
        }
    }

    /// The network with this selector name, if it is one of the three.
    pub open spec fn spec_from_name(name: Seq<char>) -> Option<Chain> {
        if name == "westend"@ {
            Some(Chain::Westend)
        } else if name == "kusama"@ {
            Some(Chain::Kusama)
        } else if name == "polkadot"@ {
            Some(Chain::Polkadot)
        } else {
            None
        }
    }

    /// Reads a selector name; any name outside the closed set is refused.
    pub fn from_name(name: &str) -> (r: Option<Chain>)
        ensures
            r == Chain::spec_from_name(name@),
    {
        if same_text(name, "westend") {
            Some(Chain::Westend)
        } else if same_text(name, "kusama") {
            Some(Chain::Kusama)
        } else if same_text(name, "polkadot") {
            Some(Chain::Polkadot)
        } else {
            None
        }
    }

    /// The network's public endpoint.
    pub open spec fn spec_url(self) -> Seq<char> {
        match self {
            Chain::Westend => "wss://westend-rpc.polkadot.io"@,
            Chain::Kusama => "wss://kusama-rpc.polkadot.io"@,
            Chain::Polkadot => "wss://rpc.polkadot.io"@,
        }
    }

    /// The network's public endpoint.
    pub fn url(self) -> (r: &'static str)
        ensures
            r@ == self.spec_url(),
    {
        match self {
            Chain::Westend => "wss://westend-rpc.polkadot.io",
            Chain::Kusama => "wss://kusama-rpc.polkadot.io",
            Chain::Polkadot => "wss://rpc.polkadot.io",
        }
    }
}

/// The parsed command line.
#[derive(Clone, Debug)]
pub struct Flags {
    /// The positional network selector.
    pub chain: Option<Chain>,
    pub debug: bool,
    pub short: bool,
    pub disable_matrix: bool,
    pub disable_public_matrix_room: bool,
    pub disable_matrix_bot_display_name: bool,
    pub matrix_user: Option<String>,
    pub matrix_bot_user: Option<String>,
    pub matrix_bot_password: Option<String>,
    pub error_interval: Option<String>,
    pub stashes: Option<String>,
    pub substrate_ws_url: Option<String>,
    /// Where the configuration file is; not a field of the record.
    pub config_path: Option<String>,
    pub hook_new_session_path: Option<String>,
    pub hook_active_next_era_path: Option<String>,
    pub hook_inactive_next_era_path: Option<String>,
}

/// A parsed command line as mathematical values.
pub struct FlagsView {
    pub chain: Option<Chain>,
    pub debug: bool,
    pub short: bool,
    pub disable_matrix: bool,
    pub disable_public_matrix_room: bool,
    pub disable_matrix_bot_display_name: bool,
    pub matrix_user: Option<Seq<char>>,
    pub matrix_bot_user: Option<Seq<char>>,
    pub matrix_bot_password: Option<Seq<char>>,
    pub error_interval: Option<Seq<char>>,
    pub stashes: Option<Seq<char>>,
    pub substrate_ws_url: Option<Seq<char>>,
    pub config_path: Option<Seq<char>>,
    pub hook_new_session_path: Option<Seq<char>>,
    pub hook_active_next_era_path: Option<Seq<char>>,
    pub hook_inactive_next_era_path: Option<Seq<char>>,
}

/// What a presence-only flag supplies: the truthy literal when it was given.
pub open spec fn presence(given: bool) -> Option<Seq<char>> {
    if given {
        Some("true"@)
    } else {
        None
    }
}

impl FlagsView {
    /// A command line on which nothing was given.
    pub open spec fn empty() -> FlagsView {
        FlagsView {
            chain: None,
            debug: false,
            short: false,
            disable_matrix: false,
            disable_public_matrix_room: false,
            disable_matrix_bot_display_name: false,
            matrix_user: None,
            matrix_bot_user: None,
            matrix_bot_password: None,
            error_interval: None,
            stashes: None,
            substrate_ws_url: None,
            config_path: None,
            hook_new_session_path: None,
            hook_active_next_era_path: None,
            hook_inactive_next_era_path: None,
        }
    }

    /// The flag of the field, with the value it was given. The polling
    /// interval has no flag.
    pub open spec fn explicit(self, field: Field) -> Option<Seq<char>> {
        match field {
            Field::Interval => None,
            Field::ErrorInterval => self.error_interval,
            Field::SubstrateWsUrl => self.substrate_ws_url,
            Field::Stashes => self.stashes,
            Field::IsDebug => presence(self.debug),
            Field::IsShort => presence(self.short),
            Field::HookNewSessionPath => self.hook_new_session_path,
            Field::HookActiveNextEraPath => self.hook_active_next_era_path,
            Field::HookInactiveNextEraPath => self.hook_inactive_next_era_path,
            Field::MatrixUser => self.matrix_user,
            Field::MatrixBotUser => self.matrix_bot_user,
            Field::MatrixBotPassword => self.matrix_bot_password,
            Field::MatrixDisabled => presence(self.disable_matrix),
            Field::MatrixPublicRoomDisabled => presence(self.disable_public_matrix_room),
            Field::MatrixBotDisplayNameDisabled => presence(self.disable_matrix_bot_display_name),
        }
    }

    /// What the network selector supplies: the network's endpoint, for the
    /// endpoint field only.
    pub open spec fn shortcut(self, field: Field) -> Option<Seq<char>> {
        match (field, self.chain) {
            (Field::SubstrateWsUrl, Some(chain)) => Some(chain.spec_url()),
            _ => None,
        }
    }

    /// What the command line supplies for the field: its flag where that was
    /// given, else what the network selector stands for.
    pub open spec fn value(self, field: Field) -> Option<Seq<char>> {
        match self.explicit(field) {
            Some(v) => Some(v),
            None => self.shortcut(field),
        }
    }
}

impl View for Flags {
    type V = FlagsView;

    open spec fn view(&self) -> FlagsView {
        FlagsView {
            chain: self.chain,
            debug: self.debug,
            short: self.short,
            disable_matrix: self.disable_matrix,
            disable_public_matrix_room: self.disable_public_matrix_room,
            disable_matrix_bot_display_name: self.disable_matrix_bot_display_name,
            matrix_user: owned_text(self.matrix_user),
            matrix_bot_user: owned_text(self.matrix_bot_user),
            matrix_bot_password: owned_text(self.matrix_bot_password),
            error_interval: owned_text(self.error_interval),
            stashes: owned_text(self.stashes),
            substrate_ws_url: owned_text(self.substrate_ws_url),
            config_path: owned_text(self.config_path),
            hook_new_session_path: owned_text(self.hook_new_session_path),
            hook_active_next_era_path: owned_text(self.hook_active_next_era_path),
            hook_inactive_next_era_path: owned_text(self.hook_inactive_next_era_path),
        }
    }
}

/// Borrows a string that may be absent.
pub fn borrowed<'a>(v: &'a Option<String>) -> (r: Option<&'a str>)
    ensures
        text_of(r) == owned_text(*v),
{
    match v {
        Some(s) => Some(s.as_str()),
        None => None,
    }
}

/// The truthy literal for a presence-only flag that was given.
pub fn present(given: bool) -> (r: Option<&'static str>)
    ensures
        text_of(r) == presence(given),
{
    if given {
        Some(TRUTHY)
    } else {
        None
    }
}

impl Flags {
    /// A command line on which nothing was given.
    pub fn new() -> (r: Flags)
        ensures
            r@ == FlagsView::empty(),
    {
        Flags {
            chain: None,
            debug: false,
            short: false,
            disable_matrix: false,
            disable_public_matrix_room: false,
            disable_matrix_bot_display_name: false,
            matrix_user: None,
            matrix_bot_user: None,
            matrix_bot_password: None,
            error_interval: None,
            stashes: None,
            substrate_ws_url: None,
            config_path: None,
            hook_new_session_path: None,
            hook_active_next_era_path: None,
            hook_inactive_next_era_path: None,
        }
    }

    /// The flag of the field, with the value it was given.
    pub fn explicit<'a>(&'a self, field: Field) -> (r: Option<&'a str>)
        ensures
            text_of(r) == self@.explicit(field),
    {
        match field {
            Field::Interval => None,
            Field::ErrorInterval => borrowed(&self.error_interval),
            Field::SubstrateWsUrl => borrowed(&self.substrate_ws_url),
            Field::Stashes => borrowed(&self.stashes),
            Field::IsDebug => present(self.debug),
            Field::IsShort => present(self.short),
            Field::HookNewSessionPath => borrowed(&self.hook_new_session_path),
            Field::HookActiveNextEraPath => borrowed(&self.hook_active_next_era_path),
            Field::HookInactiveNextEraPath => borrowed(&self.hook_inactive_next_era_path),
            Field::MatrixUser => borrowed(&self.matrix_user),
            Field::MatrixBotUser => borrowed(&self.matrix_bot_user),
            Field::MatrixBotPassword => borrowed(&self.matrix_bot_password),
            Field::MatrixDisabled => present(self.disable_matrix),
            Field::MatrixPublicRoomDisabled => present(self.disable_public_matrix_room),
            Field::MatrixBotDisplayNameDisabled => present(self.disable_matrix_bot_display_name),
        }
    }

    /// What the command line supplies for the field: its flag where that was
    /// given, else what the network selector stands for.
    pub fn value<'a>(&'a self, field: Field) -> (r: Option<&'a str>)
        ensures
            text_of(r) == self@.value(field),
    {
        match self.explicit(field) {
            Some(v) => Some(v),
            None => match (field, self.chain) {
                (Field::SubstrateWsUrl, Some(chain)) => Some(chain.url()),
                _ => None,
            },
        }
    }
}

/// A named flag of the command line.
#[derive(Clone, Copy, Debug, PartialEq, Eq, Structural)]
pub enum Flag {
    Debug,
    MatrixUser,
    MatrixBotUser,
    MatrixBotPassword,
    DisableMatrix,
    DisablePublicMatrixRoom,
    DisableMatrixBotDisplayName,
    Short,
    ErrorInterval,
    Stashes,
    SubstrateWsUrl,
    ConfigPath,
    HookNewSessionPath,
    HookActiveNextEraPath,
    HookInactiveNextEraPath,
}

impl Flag {
    /// Every named flag, once, in the order of the usage text.
    pub open spec fn spec_all() -> Seq<Flag> {
        seq![
            Flag::Debug,
            Flag::MatrixUser,
            Flag::MatrixBotUser,
            Flag::MatrixBotPassword,
            Flag::DisableMatrix,
            Flag::DisablePublicMatrixRoom,
            Flag::DisableMatrixBotDisplayName,
            Flag::Short,
            Flag::ErrorInterval,
            Flag::Stashes,
            Flag::SubstrateWsUrl,
            Flag::ConfigPath,
            Flag::HookNewSessionPath,
            Flag::HookActiveNextEraPath,
            Flag::HookInactiveNextEraPath,
        ]
    }

    /// Every named flag, once, in the order of the usage text.
    pub fn all() -> (r: Vec<Flag>)
        ensures
            r@ == Flag::spec_all(),
    {
        vec![
            Flag::Debug,
            Flag::MatrixUser,
            Flag::MatrixBotUser,
            Flag::MatrixBotPassword,
            Flag::DisableMatrix,
            Flag::DisablePublicMatrixRoom,
            Flag::DisableMatrixBotDisplayName,
            Flag::Short,
            Flag::ErrorInterval,
            Flag::Stashes,
            Flag::SubstrateWsUrl,
            Flag::ConfigPath,
            Flag::HookNewSessionPath,
            Flag::HookActiveNextEraPath,
            Flag::HookInactiveNextEraPath,
        ]
    }

    /// The field that the flag supplies; none for the flag that names the
    /// configuration file, which is no field of the record.
    pub open spec fn spec_field(self) -> Option<Field> {
        match self {
            Flag::Debug => Some(Field::IsDebug),
            Flag::MatrixUser => Some(Field::MatrixUser),
            Flag::MatrixBotUser => Some(Field::MatrixBotUser),
            Flag::MatrixBotPassword => Some(Field::MatrixBotPassword),
            Flag::DisableMatrix => Some(Field::MatrixDisabled),
            Flag::DisablePublicMatrixRoom => Some(Field::MatrixPublicRoomDisabled),
            Flag::DisableMatrixBotDisplayName => Some(Field::MatrixBotDisplayNameDisabled),
            Flag::Short => Some(Field::IsShort),
            Flag::ErrorInterval => Some(Field::ErrorInterval),
            Flag::Stashes => Some(Field::Stashes),
            Flag::SubstrateWsUrl => Some(Field::SubstrateWsUrl),
            Flag::ConfigPath => None,
            Flag::HookNewSessionPath => Some(Field::HookNewSessionPath),
            Flag::HookActiveNextEraPath => Some(Field::HookActiveNextEraPath),
            Flag::HookInactiveNextEraPath => Some(Field::HookInactiveNextEraPath),
        }
    }

    /// The field that the flag supplies.
    pub fn field(self) -> (r: Option<Field>)
        ensures
            r == self.spec_field(),
    {
        match self {
            Flag::Debug => Some(Field::IsDebug),
            Flag::MatrixUser => Some(Field::MatrixUser),
            Flag::MatrixBotUser => Some(Field::MatrixBotUser),
            Flag::MatrixBotPassword => Some(Field::MatrixBotPassword),
            Flag::DisableMatrix => Some(Field::MatrixDisabled),
            Flag::DisablePublicMatrixRoom => Some(Field::MatrixPublicRoomDisabled),
            Flag::DisableMatrixBotDisplayName => Some(Field::MatrixBotDisplayNameDisabled),
            Flag::Short => Some(Field::IsShort),
            Flag::ErrorInterval => Some(Field::ErrorInterval),
            Flag::Stashes => Some(Field::Stashes),
            Flag::SubstrateWsUrl => Some(Field::SubstrateWsUrl),
            Flag::ConfigPath => None,
            Flag::HookNewSessionPath => Some(Field::HookNewSessionPath),
            Flag::HookActiveNextEraPath => Some(Field::HookActiveNextEraPath),
            Flag::HookInactiveNextEraPath => Some(Field::HookInactiveNextEraPath),
        }
    }

    /// Whether the flag is followed by a value; a flag that is not counts
    /// by its presence alone.
    pub open spec fn spec_takes_value(self) -> bool {
        match self {
            Flag::Debug
            | Flag::DisableMatrix
            | Flag::DisablePublicMatrixRoom
            | Flag::DisableMatrixBotDisplayName
            | Flag::Short => false,
            _ => true,
        }
    }

    /// Whether the flag is followed by a value.
    pub fn takes_value(self) -> (r: bool)
        ensures
            r == self.spec_takes_value(),
    {
        match self {
            Flag::Debug
            | Flag::DisableMatrix
            | Flag::DisablePublicMatrixRoom
            | Flag::DisableMatrixBotDisplayName
            | Flag::Short => false,
            _ => true,
        }
    }

    /// The flag's long name, written after two dashes.
    pub open spec fn spec_long(self) -> Seq<char> {
        match self {
            Flag::Debug => "debug"@,
            Flag::MatrixUser => "matrix-user"@,
            Flag::MatrixBotUser => "matrix-bot-user"@,
            Flag::MatrixBotPassword => "matrix-bot-password"@,
            Flag::DisableMatrix => "disable-matrix"@,
            Flag::DisablePublicMatrixRoom => "disable-public-matrix-room"@,
            Flag::DisableMatrixBotDisplayName => "disable-matrix-bot-display-name"@,
            Flag::Short => "short"@,
            Flag::ErrorInterval => "error-interval"@,
            Flag::Stashes => "stashes"@,
            Flag::SubstrateWsUrl => "substrate-ws-url"@,
            Flag::ConfigPath => "config-path"@,
            Flag::HookNewSessionPath => "hook-new-session-path"@,
            Flag::HookActiveNextEraPath => "hook-active-next-era-path"@,
            Flag::HookInactiveNextEraPath => "hook-inactive-next-era-path"@,
        }
    }

    /// The flag's long name, written after two dashes.
    pub fn long(self) -> (r: &'static str)
        ensures
            r@ == self.spec_long(),
    {
        match self {
            Flag::Debug => "debug",
            Flag::MatrixUser => "matrix-user",
            Flag::MatrixBotUser => "matrix-bot-user",
            Flag::MatrixBotPassword => "matrix-bot-password",
            Flag::DisableMatrix => "disable-matrix",
            Flag::DisablePublicMatrixRoom => "disable-public-matrix-room",
            Flag::DisableMatrixBotDisplayName => "disable-matrix-bot-display-name",
            Flag::Short => "short",
            Flag::ErrorInterval => "error-interval",
            Flag::Stashes => "stashes",
            Flag::SubstrateWsUrl => "substrate-ws-url",
            Flag::ConfigPath => "config-path",
            Flag::HookNewSessionPath => "hook-new-session-path",
            Flag::HookActiveNextEraPath => "hook-active-next-era-path",
            Flag::HookInactiveNextEraPath => "hook-inactive-next-era-path",
        }
    }

    /// The flag's one-letter name, written after one dash, where it has one.
    pub open spec fn spec_short(self) -> Option<Seq<char>> {
        match self {
            Flag::Stashes => Some("s"@),
            Flag::SubstrateWsUrl => Some("w"@),
            Flag::ConfigPath => Some("c"@),
            _ => None,
        }
    }

    /// The flag's one-letter name, where it has one.
    pub fn short(self) -> (r: Option<&'static str>)
        ensures
            text_of(r) == self.spec_short(),
    {
        match self {
            Flag::Stashes => Some("s"),
            Flag::SubstrateWsUrl => Some("w"),
            Flag::ConfigPath => Some("c"),
            _ => None,
        }
    }

    /// What the usage text calls the flag's value, where it names it.
    pub open spec fn spec_value_name(self) -> Option<Seq<char>> {
        match self {
            Flag::ConfigPath
            | Flag::HookNewSessionPath
            | Flag::HookActiveNextEraPath
            | Flag::HookInactiveNextEraPath => Some("FILE"@),
            _ => None,
        }
    }

    /// What the usage text calls the flag's value, where it names it.
    pub fn value_name(self) -> (r: Option<&'static str>)
        ensures
            text_of(r) == self.spec_value_name(),
    {
        match self {
            Flag::ConfigPath
            | Flag::HookNewSessionPath
            | Flag::HookActiveNextEraPath
            | Flag::HookInactiveNextEraPath => Some("FILE"),
            _ => None,
        }
    }

    /// The value that the usage text shows for a flag that was not given.
    pub open spec fn spec_shown_default(self) -> Option<Seq<char>> {
        match self {
            Flag::ErrorInterval => Some("30"@),
            Flag::ConfigPath => Some(".env"@),
            Flag::HookActiveNextEraPath => Some("./hooks/active_next_era.sh"@),
            Flag::HookInactiveNextEraPath => Some("./hooks/inactive_next_era.sh"@),
            _ => None,
        }
    }

    /// The value that the usage text shows for a flag that was not given.
    pub fn shown_default(self) -> (r: Option<&'static str>)
        ensures
            text_of(r) == self.spec_shown_default(),
    {
        match self {
            Flag::ErrorInterval => Some("30"),
            Flag::ConfigPath => Some(".env"),
            Flag::HookActiveNextEraPath => Some("./hooks/active_next_era.sh"),
            Flag::HookInactiveNextEraPath => Some("./hooks/inactive_next_era.sh"),
            _ => None,
        }
    }
}

impl FlagsView {
    /// The command line after one more flag was given, with its value where
    /// it takes one. A flag that takes a value and got none changes nothing.
    pub open spec fn with(self, flag: Flag, value: Option<Seq<char>>) -> FlagsView {
        match flag {
            Flag::Debug => FlagsView { debug: true, ..self },
            Flag::Short => FlagsView { short: true, ..self },
            Flag::DisableMatrix => FlagsView { disable_matrix: true, ..self },
            Flag::DisablePublicMatrixRoom => FlagsView { disable_public_matrix_room: true, ..self },
            Flag::DisableMatrixBotDisplayName => FlagsView {
                disable_matrix_bot_display_name: true,
                ..self
            },
            _ => match value {
                None => self,
                Some(v) => match flag {
                    Flag::MatrixUser => FlagsView { matrix_user: Some(v), ..self },
                    Flag::MatrixBotUser => FlagsView { matrix_bot_user: Some(v), ..self },
                    Flag::MatrixBotPassword => FlagsView { matrix_bot_password: Some(v), ..self },
                    Flag::ErrorInterval => FlagsView { error_interval: Some(v), ..self },
                    Flag::Stashes => FlagsView { stashes: Some(v), ..self },
                    Flag::SubstrateWsUrl => FlagsView { substrate_ws_url: Some(v), ..self },
                    Flag::ConfigPath => FlagsView { config_path: Some(v), ..self },
                    Flag::HookNewSessionPath => FlagsView {
                        hook_new_session_path: Some(v),
                        ..self
                    },
                    Flag::HookActiveNextEraPath => FlagsView {
                        hook_active_next_era_path: Some(v),
                        ..self
                    },
                    Flag::HookInactiveNextEraPath => FlagsView {
                        hook_inactive_next_era_path: Some(v),
                        ..self
                    },
                    _ => self,
                },
            },
        }
    }
}

impl Flags {
    /// Records that a flag was given, with its value where it takes one, as
    /// `FlagsView::with` says. A later value for a flag replaces an earlier.
    pub fn give(&mut self, flag: Flag, value: Option<String>)
        ensures
            final(self)@ == old(self)@.with(flag, owned_text(value)),
    {
        match flag {
            Flag::Debug => {
                self.debug = true;
            },
            Flag::Short => {
                self.short = true;
            },
            Flag::DisableMatrix => {
                self.disable_matrix = true;
            },
            Flag::DisablePublicMatrixRoom => {
                self.disable_public_matrix_room = true;
            },
            Flag::DisableMatrixBotDisplayName => {
                self.disable_matrix_bot_display_name = true;
            },
            _ => match value {
                None => {},
                Some(v) => match flag {
                    Flag::MatrixUser => {
                        self.matrix_user = Some(v);
                    },
                    Flag::MatrixBotUser => {
                        self.matrix_bot_user = Some(v);
                    },
                    Flag::MatrixBotPassword => {
                        self.matrix_bot_password = Some(v);
                    },
                    Flag::ErrorInterval => {
                        self.error_interval = Some(v);
                    },
                    Flag::Stashes => {
                        self.stashes = Some(v);
                    },
                    Flag::SubstrateWsUrl => {
                        self.substrate_ws_url = Some(v);
                    },
                    Flag::ConfigPath => {
                        self.config_path = Some(v);
                    },
                    Flag::HookNewSessionPath => {
                        self.hook_new_session_path = Some(v);
                    },
                    Flag::HookActiveNextEraPath => {
                        self.hook_active_next_era_path = Some(v);
                    },
                    Flag::HookInactiveNextEraPath => {
                        self.hook_inactive_next_era_path = Some(v);
                    },
                    _ => {},
                },
            },
        }
    }

    /// Records the network that the positional selector named.
    pub fn select(&mut self, chain: Chain)
        ensures
            final(self)@ == (FlagsView { chain: Some(chain), ..old(self)@ }),
    {
        self.chain = Some(chain);
    }
}

} // verus!
