//! Typed values of the record's fields: what each field defaults to, how a
//! text is read as a value of the field, and when that fails.

use vstd::prelude::*;
use vstd::string::*;
use crate::fields::Field;
use crate::text::{
    comma_list, parse_truth, parse_unsigned, split_commas, text_of, texts, truth_of, unsigned_of,
};

verus! {

/// Seconds between two polls when nothing sets the interval.
pub const DEFAULT_INTERVAL: u64 = 21600;

/// Seconds before a restart after a critical error when nothing sets it.
pub const DEFAULT_ERROR_INTERVAL: u64 = 30;

/// The script run when a stash is active and its keys are queued, unless a
/// source names another.
pub const DEFAULT_HOOK_ACTIVE_NEXT_ERA_PATH: &'static str = "./hooks/active_next_era.sh";

/// The script run when a stash is active and its keys are not queued,
/// unless a source names another.
pub const DEFAULT_HOOK_INACTIVE_NEXT_ERA_PATH: &'static str = "./hooks/inactive_next_era.sh";

/// The shape of a field's value.
#[derive(Clone, Copy, Debug, PartialEq, Eq, Structural)]
pub enum Kind {
    Number,
    Truth,
    Text,
    List,
}

/// The value of one field.
#[derive(Clone, Debug, PartialEq, Eq)]
pub enum FieldValue {
    Number(u64),
    Truth(bool),
    Text(String),
    List(Vec<String>),
}

/// The value of one field, as a mathematical value.
pub enum Value {
    Number(u64),
    Truth(bool),
    Text(Seq<char>),
    List(Seq<Seq<char>>),
}

impl View for FieldValue {
    type V = Value;

    open spec fn view(&self) -> Value {
        match self {
            FieldValue::Number(n) => Value::Number(*n),
            FieldValue::Truth(b) => Value::Truth(*b),
            FieldValue::Text(s) => Value::Text(s@),
            FieldValue::List(v) => Value::List(texts(v@)),
        }
    }
}

impl Value {
    /// The shape of this value.
    pub open spec fn kind(self) -> Kind {
        match self {
            Value::Number(_) => Kind::Number,
            Value::Truth(_) => Kind::Truth,
            Value::Text(_) => Kind::Text,
            Value::List(_) => Kind::List,
        }
    }
}

/// Why a record could not be resolved.
#[derive(Clone, Debug, PartialEq, Eq)]
pub enum ConfigError {
    /// No source supplies the field, and it declares no default.
    MissingValue(Field),
    /// The text that won for the field is no value of the field's shape.
    InvalidValue(Field, String),
}

/// Why a record could not be resolved, as a mathematical value.
pub enum ConfigErrorView {
    MissingValue(Field),
    InvalidValue(Field, Seq<char>),
}

impl View for ConfigError {
    type V = ConfigErrorView;

    open spec fn view(&self) -> ConfigErrorView {
        match self {
            ConfigError::MissingValue(f) => ConfigErrorView::MissingValue(*f),
            ConfigError::InvalidValue(f, s) => ConfigErrorView::InvalidValue(*f, s@),
        }
    }
}

impl ConfigErrorView {
    /// The field that the failure is about.
    pub open spec fn field(self) -> Field {
        match self {
            ConfigErrorView::MissingValue(f) => f,
            ConfigErrorView::InvalidValue(f, _) => f,
        }
    }

    /// The failure in words.
    pub open spec fn message(self) -> Seq<char> {
        match self {
            ConfigErrorView::MissingValue(f) => "missing value for field "@ + f.spec_name(),
            ConfigErrorView::InvalidValue(f, s) => "invalid value '"@ + s + "' for field "@
                + f.spec_name(),
        }
    }
}

impl ConfigError {
    /// The field that the failure is about.
    pub fn field(&self) -> (r: Field)
        ensures
            r == self@.field(),
    {
        match self {
            ConfigError::MissingValue(f) => *f,
            ConfigError::InvalidValue(f, _) => *f,
        }
    }

    /// The failure in words, naming the field and, where a text was
    /// refused, the text.
    pub fn message(&self) -> (r: String)
        ensures
            r@ == self@.message(),
    {
        match self {
            ConfigError::MissingValue(f) => {
                String::from_str("missing value for field ").concat(f.name())
            },
            ConfigError::InvalidValue(f, s) => {
                String::from_str("invalid value '").concat(s.as_str()).concat(
                    "' for field ",
                ).concat(f.name())
            },
        }
    }
}

impl Field {
    /// The shape of the field's value.
    pub open spec fn kind(self) -> Kind {
        match self {
            Field::Interval | Field::ErrorInterval => Kind::Number,
            Field::Stashes => Kind::List,
            Field::IsDebug
            | Field::IsShort
            | Field::MatrixDisabled
            | Field::MatrixPublicRoomDisabled
            | Field::MatrixBotDisplayNameDisabled => Kind::Truth,
            Field::SubstrateWsUrl
            | Field::HookNewSessionPath
            | Field::HookActiveNextEraPath
            | Field::HookInactiveNextEraPath
            | Field::MatrixUser
            | Field::MatrixBotUser
            | Field::MatrixBotPassword => Kind::Text,
        }
    }

    /// Whether some source has to supply the field: it declares no default.
    pub open spec fn is_required(self) -> bool {
        self == Field::SubstrateWsUrl || self == Field::Stashes
    }
}

/// The value that a field declares for the case that no source supplies
/// it; none for a required field.
pub open spec fn default_of(field: Field) -> Option<Value> {
    match field {
        Field::Interval => Some(Value::Number(DEFAULT_INTERVAL)),
        Field::ErrorInterval => Some(Value::Number(DEFAULT_ERROR_INTERVAL)),
        Field::SubstrateWsUrl | Field::Stashes => None,
        Field::IsDebug
        | Field::IsShort
        | Field::MatrixDisabled
        | Field::MatrixPublicRoomDisabled
        | Field::MatrixBotDisplayNameDisabled => Some(Value::Truth(false)),
        Field::HookActiveNextEraPath => Some(Value::Text("./hooks/active_next_era.sh"@)),
        Field::HookInactiveNextEraPath => Some(Value::Text("./hooks/inactive_next_era.sh"@)),
        Field::HookNewSessionPath
        | Field::MatrixUser
        | Field::MatrixBotUser
        | Field::MatrixBotPassword => Some(Value::Text(Seq::empty())),
    }
}

/// A text read as a value of the field's shape; none where the text is no
/// such value. Any text is a text, and any text is a list.
pub open spec fn read_as(field: Field, s: Seq<char>) -> Option<Value> {
    match field.kind() {
        Kind::Number => match unsigned_of(s) {
            Some(n) => Some(Value::Number(n)),
            None => None,
        },
        Kind::Truth => match truth_of(s) {
            Some(b) => Some(Value::Truth(b)),
            None => None,
        },
        Kind::Text => Some(Value::Text(s)),
        Kind::List => Some(Value::List(comma_list(s))),
    }
}

/// What becomes of a field, given the text that won for it. An absent
/// text, and for a field with a default an empty one, gives the default;
/// absence without a default is a failure; any other text is read as the
/// field's shape, and fails where it is no value of it.
pub open spec fn outcome(field: Field, raw: Option<Seq<char>>) -> Result<Value, ConfigErrorView> {
    match raw {
        None => match default_of(field) {
            Some(v) => Ok(v),
            None => Err(ConfigErrorView::MissingValue(field)),
        },
        Some(s) => if s.len() == 0 && default_of(field) is Some {
            Ok(default_of(field)->0)
        } else {
            match read_as(field, s) {
                Some(v) => Ok(v),
                None => Err(ConfigErrorView::InvalidValue(field, s)),
            }
        },
    }
}

/// The view of a value that may be absent.
pub open spec fn value_of(v: Option<FieldValue>) -> Option<Value> {
    match v {
        Some(v) => Some(v@),
        None => None,
    }
}

/// The view of a field's value or failure.
pub open spec fn outcome_of(r: Result<FieldValue, ConfigError>) -> Result<Value, ConfigErrorView> {
    match r {
        Ok(v) => Ok(v@),
        Err(e) => Err(e@),
    }
}

/// The field's declared default, as `default_of` says.
pub fn default_value(field: Field) -> (r: Option<FieldValue>)
    ensures
        value_of(r) == default_of(field),
{
    match field {
        Field::Interval => Some(FieldValue::Number(DEFAULT_INTERVAL)),
        Field::ErrorInterval => Some(FieldValue::Number(DEFAULT_ERROR_INTERVAL)),
        Field::SubstrateWsUrl | Field::Stashes => None,
        Field::IsDebug
        | Field::IsShort
        | Field::MatrixDisabled
        | Field::MatrixPublicRoomDisabled
        | Field::MatrixBotDisplayNameDisabled => Some(FieldValue::Truth(false)),
        Field::HookActiveNextEraPath => Some(
            FieldValue::Text(DEFAULT_HOOK_ACTIVE_NEXT_ERA_PATH.to_owned()),
        ),
        Field::HookInactiveNextEraPath => Some(
            FieldValue::Text(DEFAULT_HOOK_INACTIVE_NEXT_ERA_PATH.to_owned()),
        ),
        Field::HookNewSessionPath
        | Field::MatrixUser
        | Field::MatrixBotUser
        | Field::MatrixBotPassword => Some(FieldValue::Text(String::new())),
    }
}

/// Reads a text as a value of the field's shape, as `read_as` says.
pub fn coerce(field: Field, s: &str) -> (r: Option<FieldValue>)
    ensures
        value_of(r) == read_as(field, s@),
{
    match field {
        Field::Interval | Field::ErrorInterval => match parse_unsigned(s) {
            Some(n) => Some(FieldValue::Number(n)),
            None => None,
        },
        Field::Stashes => Some(FieldValue::List(split_commas(s))),
        Field::IsDebug
        | Field::IsShort
        | Field::MatrixDisabled
        | Field::MatrixPublicRoomDisabled
        | Field::MatrixBotDisplayNameDisabled => match parse_truth(s) {
            Some(b) => Some(FieldValue::Truth(b)),
            None => None,
        },
        Field::SubstrateWsUrl
        | Field::HookNewSessionPath
        | Field::HookActiveNextEraPath
        | Field::HookInactiveNextEraPath
        | Field::MatrixUser
        | Field::MatrixBotUser
        | Field::MatrixBotPassword => Some(FieldValue::Text(s.to_owned())),
    }
}

/// Settles one field from the text that won for it, as `outcome` says.
pub fn settle(field: Field, raw: Option<&str>) -> (r: Result<FieldValue, ConfigError>)
    ensures
        outcome_of(r) == outcome(field, text_of(raw)),
{
    match raw {
        None => match default_value(field) {
            Some(v) => Ok(v),
            None => Err(ConfigError::MissingValue(field)),
        },
        Some(s) => {
            if s.unicode_len() == 0 {
                match default_value(field) {
                    Some(v) => {
                        return Ok(v);
                    },
                    None => {},
                }
            }
            match coerce(field, s) {
                Some(v) => Ok(v),
                None => Err(ConfigError::InvalidValue(field, s.to_owned())),
            }
        },
    }
}

} // verus!
