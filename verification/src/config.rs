//! The configuration record and its resolution from the layered sources.

use vstd::prelude::*;
use vstd::string::*;
use crate::fields::Field;
use crate::sources::{Sources, SourcesView};
use crate::text::texts;
use crate::values::{
    outcome, settle, ConfigError, ConfigErrorView, FieldValue, Kind, Value,
    DEFAULT_ERROR_INTERVAL, DEFAULT_INTERVAL,
};

verus! {

/// The polling interval, in seconds, when no source sets one.
pub fn default_interval() -> (r: u64)
    ensures
        r == DEFAULT_INTERVAL,
        r == 21600,
{
    DEFAULT_INTERVAL
}

/// The error-retry interval, in seconds, when no source sets one.
pub fn default_error_interval() -> (r: u64)
    ensures
        r == DEFAULT_ERROR_INTERVAL,
        r == 30,
{
    DEFAULT_ERROR_INTERVAL
}

/// The resolved configuration of the agent.
#[derive(Debug, PartialEq, Eq)]
pub struct Config {
    pub interval: u64,
    pub error_interval: u64,
    pub substrate_ws_url: String,
    pub stashes: Vec<String>,
    pub is_debug: bool,
    pub is_short: bool,
    // hooks configuration
    pub hook_new_session_path: String,
    pub hook_active_next_era_path: String,
    pub hook_inactive_next_era_path: String,
    // matrix configuration
    pub matrix_user: String,
    pub matrix_bot_user: String,
    pub matrix_bot_password: String,
    pub matrix_disabled: bool,
    pub matrix_public_room_disabled: bool,
    pub matrix_bot_display_name_disabled: bool,
}

/// The record as mathematical values.
pub struct ConfigView {
    pub interval: u64,
    pub error_interval: u64,
    pub substrate_ws_url: Seq<char>,
    pub stashes: Seq<Seq<char>>,
    pub is_debug: bool,
    pub is_short: bool,
    pub hook_new_session_path: Seq<char>,
    pub hook_active_next_era_path: Seq<char>,
    pub hook_inactive_next_era_path: Seq<char>,
    pub matrix_user: Seq<char>,
    pub matrix_bot_user: Seq<char>,
    pub matrix_bot_password: Seq<char>,
    pub matrix_disabled: bool,
    pub matrix_public_room_disabled: bool,
    pub matrix_bot_display_name_disabled: bool,
}

impl View for Config {
    type V = ConfigView;

    open spec fn view(&self) -> ConfigView {
        ConfigView {
            interval: self.interval,
            error_interval: self.error_interval,
            substrate_ws_url: self.substrate_ws_url@,
            stashes: texts(self.stashes@),
            is_debug: self.is_debug,
            is_short: self.is_short,
            hook_new_session_path: self.hook_new_session_path@,
            hook_active_next_era_path: self.hook_active_next_era_path@,
            hook_inactive_next_era_path: self.hook_inactive_next_era_path@,
            matrix_user: self.matrix_user@,
            matrix_bot_user: self.matrix_bot_user@,
            matrix_bot_password: self.matrix_bot_password@,
            matrix_disabled: self.matrix_disabled,
            matrix_public_room_disabled: self.matrix_public_room_disabled,
            matrix_bot_display_name_disabled: self.matrix_bot_display_name_disabled,
        }
    }
}

impl ConfigView {
    /// The value that the record holds for the field.
    pub open spec fn get(self, field: Field) -> Value {
        match field {
            Field::Interval => Value::Number(self.interval),
            Field::ErrorInterval => Value::Number(self.error_interval),
            Field::SubstrateWsUrl => Value::Text(self.substrate_ws_url),
            Field::Stashes => Value::List(self.stashes),
            Field::IsDebug => Value::Truth(self.is_debug),
            Field::IsShort => Value::Truth(self.is_short),
            Field::HookNewSessionPath => Value::Text(self.hook_new_session_path),
            Field::HookActiveNextEraPath => Value::Text(self.hook_active_next_era_path),
            Field::HookInactiveNextEraPath => Value::Text(self.hook_inactive_next_era_path),
            Field::MatrixUser => Value::Text(self.matrix_user),
            Field::MatrixBotUser => Value::Text(self.matrix_bot_user),
            Field::MatrixBotPassword => Value::Text(self.matrix_bot_password),
            Field::MatrixDisabled => Value::Truth(self.matrix_disabled),
            Field::MatrixPublicRoomDisabled => Value::Truth(self.matrix_public_room_disabled),
            Field::MatrixBotDisplayNameDisabled => Value::Truth(
                self.matrix_bot_display_name_disabled,
            ),
        }
    }
}

/// Copies a list of strings.
fn copy_strings(v: &Vec<String>) -> (r: Vec<String>)
    ensures
        r@ == v@,
{
    let n: usize = v.len();
    let mut out: Vec<String> = Vec::new();
    let mut i: usize = 0;
    while i < n
        invariant
            n == v@.len(),
            i <= n,
            out@ == v@.subrange(0, i as int),
        decreases n - i,
    {
        out.push(v[i].clone());
        assert(out@ =~= v@.subrange(0, i + 1));
        i += 1;
    }
    assert(v@.subrange(0, n as int) =~= v@);
    out
}

impl Clone for Config {
    fn clone(&self) -> (r: Self)
        ensures
            r@ == self@,
    {
        Config {
            interval: self.interval,
            error_interval: self.error_interval,
            substrate_ws_url: self.substrate_ws_url.clone(),
            stashes: copy_strings(&self.stashes),
            is_debug: self.is_debug,
            is_short: self.is_short,
            hook_new_session_path: self.hook_new_session_path.clone(),
            hook_active_next_era_path: self.hook_active_next_era_path.clone(),
            hook_inactive_next_era_path: self.hook_inactive_next_era_path.clone(),
            matrix_user: self.matrix_user.clone(),
            matrix_bot_user: self.matrix_bot_user.clone(),
            matrix_bot_password: self.matrix_bot_password.clone(),
            matrix_disabled: self.matrix_disabled,
            matrix_public_room_disabled: self.matrix_public_room_disabled,
            matrix_bot_display_name_disabled: self.matrix_bot_display_name_disabled,
        }
    }
}

/// How the field fails on these sources, if it does.
pub open spec fn failure(src: SourcesView, field: Field) -> Option<ConfigErrorView> {
    match outcome(field, src.raw(field)) {
        Ok(_) => None,
        Err(e) => Some(e),
    }
}

/// The first of two failures: the earlier where there is one.
pub open spec fn otherwise(
    earlier: Option<ConfigErrorView>,
    later: Option<ConfigErrorView>,
) -> Option<ConfigErrorView> {
    if earlier is Some {
        earlier
    } else {
        later
    }
}

/// The failure of the first field, in the record's order, that fails.
pub open spec fn first_failure(src: SourcesView) -> Option<ConfigErrorView> {
    otherwise(
        failure(src, Field::Interval),
        otherwise(
            failure(src, Field::ErrorInterval),
            otherwise(
                failure(src, Field::SubstrateWsUrl),
                otherwise(
                    failure(src, Field::Stashes),
                    otherwise(
                        failure(src, Field::IsDebug),
                        otherwise(
                            failure(src, Field::IsShort),
                            otherwise(
                                failure(src, Field::MatrixDisabled),
                                otherwise(
                                    failure(src, Field::MatrixPublicRoomDisabled),
                                    failure(src, Field::MatrixBotDisplayNameDisabled),
                                ),
                            ),
                        ),
                    ),
                ),
            ),
        ),
    )
}

/// The number that a field came to; 0 where it came to none.
pub open spec fn number_in(o: Result<Value, ConfigErrorView>) -> u64 {
    match o {
        Ok(Value::Number(n)) => n,
        _ => 0,
    }
}

/// The truth value that a field came to; false where it came to none.
pub open spec fn truth_in(o: Result<Value, ConfigErrorView>) -> bool {
    match o {
        Ok(Value::Truth(b)) => b,
        _ => false,
    }
}

/// The text that a field came to; empty where it came to none.
pub open spec fn text_in(o: Result<Value, ConfigErrorView>) -> Seq<char> {
    match o {
        Ok(Value::Text(s)) => s,
        _ => Seq::empty(),
    }
}

/// The list that a field came to; empty where it came to none.
pub open spec fn list_in(o: Result<Value, ConfigErrorView>) -> Seq<Seq<char>> {
    match o {
        Ok(Value::List(l)) => l,
        _ => Seq::empty(),
    }
}

/// The record made of what each field comes to on these sources.
pub open spec fn record(src: SourcesView) -> ConfigView {
    ConfigView {
        interval: number_in(outcome(Field::Interval, src.raw(Field::Interval))),
        error_interval: number_in(outcome(Field::ErrorInterval, src.raw(Field::ErrorInterval))),
        substrate_ws_url: text_in(outcome(Field::SubstrateWsUrl, src.raw(Field::SubstrateWsUrl))),
        stashes: list_in(outcome(Field::Stashes, src.raw(Field::Stashes))),
        is_debug: truth_in(outcome(Field::IsDebug, src.raw(Field::IsDebug))),
        is_short: truth_in(outcome(Field::IsShort, src.raw(Field::IsShort))),
        hook_new_session_path: text_in(
            outcome(Field::HookNewSessionPath, src.raw(Field::HookNewSessionPath)),
        ),
        hook_active_next_era_path: text_in(
            outcome(Field::HookActiveNextEraPath, src.raw(Field::HookActiveNextEraPath)),
        ),
        hook_inactive_next_era_path: text_in(
            outcome(Field::HookInactiveNextEraPath, src.raw(Field::HookInactiveNextEraPath)),
        ),
        matrix_user: text_in(outcome(Field::MatrixUser, src.raw(Field::MatrixUser))),
        matrix_bot_user: text_in(outcome(Field::MatrixBotUser, src.raw(Field::MatrixBotUser))),
        matrix_bot_password: text_in(
            outcome(Field::MatrixBotPassword, src.raw(Field::MatrixBotPassword)),
        ),
        matrix_disabled: truth_in(outcome(Field::MatrixDisabled, src.raw(Field::MatrixDisabled))),
        matrix_public_room_disabled: truth_in(
            outcome(Field::MatrixPublicRoomDisabled, src.raw(Field::MatrixPublicRoomDisabled)),
        ),
        matrix_bot_display_name_disabled: truth_in(
            outcome(
                Field::MatrixBotDisplayNameDisabled,
                src.raw(Field::MatrixBotDisplayNameDisabled),
            ),
        ),
    }
}

/// What resolution comes to: the failure of the first field that fails, in
/// the record's order, else the record of what every field comes to.
pub open spec fn resolved(src: SourcesView) -> Result<ConfigView, ConfigErrorView> {
    match first_failure(src) {
        Some(e) => Err(e),
        None => Ok(record(src)),
    }
}

/// The view of a record or failure.
pub open spec fn result_of(r: Result<Config, ConfigError>) -> Result<ConfigView, ConfigErrorView> {
    match r {
        Ok(c) => Ok(c@),
        Err(e) => Err(e@),
    }
}

/// Settles a field whose value is a number.
fn number_field(sources: &Sources, field: Field) -> (r: Result<u64, ConfigError>)
    requires
        field.kind() == Kind::Number,
    ensures
        match r {
            Ok(n) => failure(sources@, field) is None && n == number_in(
                outcome(field, sources@.raw(field)),
            ),
            Err(e) => failure(sources@, field) == Some(e@),
        },
{
    match settle(field, sources.raw(field)) {
        Ok(FieldValue::Number(n)) => Ok(n),
        Ok(_) => vstd::pervasive::unreached(),
        Err(e) => Err(e),
    }
}

/// Settles a field whose value is a truth value.
fn truth_field(sources: &Sources, field: Field) -> (r: Result<bool, ConfigError>)
    requires
        field.kind() == Kind::Truth,
    ensures
        match r {
            Ok(b) => failure(sources@, field) is None && b == truth_in(
                outcome(field, sources@.raw(field)),
            ),
            Err(e) => failure(sources@, field) == Some(e@),
        },
{
    match settle(field, sources.raw(field)) {
        Ok(FieldValue::Truth(b)) => Ok(b),
        Ok(_) => vstd::pervasive::unreached(),
        Err(e) => Err(e),
    }
}

/// Settles a field whose value is a text.
fn text_field(sources: &Sources, field: Field) -> (r: Result<String, ConfigError>)
    requires
        field.kind() == Kind::Text,
    ensures
        match r {
            Ok(s) => failure(sources@, field) is None && s@ == text_in(
                outcome(field, sources@.raw(field)),
            ),
            Err(e) => failure(sources@, field) == Some(e@),
        },
{
    match settle(field, sources.raw(field)) {
        Ok(FieldValue::Text(s)) => Ok(s),
        Ok(_) => vstd::pervasive::unreached(),
        Err(e) => Err(e),
    }
}

/// Settles a field whose value is a list.
fn list_field(sources: &Sources, field: Field) -> (r: Result<Vec<String>, ConfigError>)
    requires
        field.kind() == Kind::List,
    ensures
        match r {
            Ok(l) => failure(sources@, field) is None && texts(l@) == list_in(
                outcome(field, sources@.raw(field)),
            ),
            Err(e) => failure(sources@, field) == Some(e@),
        },
{
    match settle(field, sources.raw(field)) {
        Ok(FieldValue::List(l)) => Ok(l),
        Ok(_) => vstd::pervasive::unreached(),
        Err(e) => Err(e),
    }
}

/// Resolves the record from the layered sources, as `resolved` says: each
/// field from the text that wins for it, the fields taken in the record's
/// order, the first failure ending the resolution.
pub fn get_config(sources: &Sources) -> (r: Result<Config, ConfigError>)
    ensures
        result_of(r) == resolved(sources@),
{
    let interval: u64 = match number_field(sources, Field::Interval) {
        Ok(n) => n,
        Err(e) => {
            return Err(e);
        },
    };
    let error_interval: u64 = match number_field(sources, Field::ErrorInterval) {
        Ok(n) => n,
        Err(e) => {
            return Err(e);
        },
    };
    let substrate_ws_url: String = match text_field(sources, Field::SubstrateWsUrl) {
        Ok(s) => s,
        Err(e) => {
            return Err(e);
        },
    };
    let stashes: Vec<String> = match list_field(sources, Field::Stashes) {
        Ok(l) => l,
        Err(e) => {
            return Err(e);
        },
    };
    let is_debug: bool = match truth_field(sources, Field::IsDebug) {
        Ok(b) => b,
        Err(e) => {
            return Err(e);
        },
    };
    let is_short: bool = match truth_field(sources, Field::IsShort) {
        Ok(b) => b,
        Err(e) => {
            return Err(e);
        },
    };
    let hook_new_session_path: String = match text_field(sources, Field::HookNewSessionPath) {
        Ok(s) => s,
        Err(e) => {
            return Err(e);
        },
    };
    let hook_active_next_era_path: String = match text_field(
        sources,
        Field::HookActiveNextEraPath,
    ) {
        Ok(s) => s,
        Err(e) => {
            return Err(e);
        },
    };
    let hook_inactive_next_era_path: String = match text_field(
        sources,
        Field::HookInactiveNextEraPath,
    ) {
        Ok(s) => s,
        Err(e) => {
            return Err(e);
        },
    };
    let matrix_user: String = match text_field(sources, Field::MatrixUser) {
        Ok(s) => s,
        Err(e) => {
            return Err(e);
        },
    };
    let matrix_bot_user: String = match text_field(sources, Field::MatrixBotUser) {
        Ok(s) => s,
        Err(e) => {
            return Err(e);
        },
    };
    let matrix_bot_password: String = match text_field(sources, Field::MatrixBotPassword) {
        Ok(s) => s,
        Err(e) => {
            return Err(e);
        },
    };
    let matrix_disabled: bool = match truth_field(sources, Field::MatrixDisabled) {
        Ok(b) => b,
        Err(e) => {
            return Err(e);
        },
    };
    let matrix_public_room_disabled: bool = match truth_field(
        sources,
        Field::MatrixPublicRoomDisabled,
    ) {
        Ok(b) => b,
        Err(e) => {
            return Err(e);
        },
    };
    let matrix_bot_display_name_disabled: bool = match truth_field(
        sources,
        Field::MatrixBotDisplayNameDisabled,
    ) {
        Ok(b) => b,
        Err(e) => {
            return Err(e);
        },
    };
    Ok(
        Config {
            interval,
            error_interval,
            substrate_ws_url,
            stashes,
            is_debug,
            is_short,
            hook_new_session_path,
            hook_active_next_era_path,
            hook_inactive_next_era_path,
            matrix_user,
            matrix_bot_user,
            matrix_bot_password,
            matrix_disabled,
            matrix_public_room_disabled,
            matrix_bot_display_name_disabled,
        },
    )
}

} // verus!
