//! The fields of the configuration record and the variables that carry them.

use vstd::prelude::*;
use vstd::string::*;
use crate::text::{owned_text, same_text, text_of};

verus! {

/// The token that every variable of the record starts with.
pub const PREFIX: &'static str = "SKIPPER_";

/// `PREFIX` as a text.
pub open spec fn prefix() -> Seq<char> {
    "SKIPPER_"@
}

/// One field of the configuration record, in the record's order.
#[derive(Clone, Copy, Debug, PartialEq, Eq, Structural)]
pub enum Field {
    Interval,
    ErrorInterval,
    SubstrateWsUrl,
    Stashes,
    IsDebug,
    IsShort,
    HookNewSessionPath,
    HookActiveNextEraPath,
    HookInactiveNextEraPath,
    MatrixUser,
    MatrixBotUser,
    MatrixBotPassword,
    MatrixDisabled,
    MatrixPublicRoomDisabled,
    MatrixBotDisplayNameDisabled,
}

impl Field {
    /// The field's name, in lower case.
    pub open spec fn spec_name(self) -> Seq<char> {
        match self {
            Field::Interval => "interval"@,
            Field::ErrorInterval => "error_interval"@,
            Field::SubstrateWsUrl => "substrate_ws_url"@,
            Field::Stashes => "stashes"@,
            Field::IsDebug => "is_debug"@,
            Field::IsShort => "is_short"@,
            Field::HookNewSessionPath => "hook_new_session_path"@,
            Field::HookActiveNextEraPath => "hook_active_next_era_path"@,
            Field::HookInactiveNextEraPath => "hook_inactive_next_era_path"@,
            Field::MatrixUser => "matrix_user"@,
            Field::MatrixBotUser => "matrix_bot_user"@,
            Field::MatrixBotPassword => "matrix_bot_password"@,
            Field::MatrixDisabled => "matrix_disabled"@,
            Field::MatrixPublicRoomDisabled => "matrix_public_room_disabled"@,
            Field::MatrixBotDisplayNameDisabled => "matrix_bot_display_name_disabled"@,
        }
    }

    /// The field's name, in lower case.
    pub fn name(self) -> (r: &'static str)
        ensures
            r@ == self.spec_name(),
    {
        match self {
            Field::Interval => "interval",
            Field::ErrorInterval => "error_interval",
            Field::SubstrateWsUrl => "substrate_ws_url",
            Field::Stashes => "stashes",
            Field::IsDebug => "is_debug",
            Field::IsShort => "is_short",
            Field::HookNewSessionPath => "hook_new_session_path",
            Field::HookActiveNextEraPath => "hook_active_next_era_path",
            Field::HookInactiveNextEraPath => "hook_inactive_next_era_path",
            Field::MatrixUser => "matrix_user",
            Field::MatrixBotUser => "matrix_bot_user",
            Field::MatrixBotPassword => "matrix_bot_password",
            Field::MatrixDisabled => "matrix_disabled",
            Field::MatrixPublicRoomDisabled => "matrix_public_room_disabled",
            Field::MatrixBotDisplayNameDisabled => "matrix_bot_display_name_disabled",
        }
    }
}

/// The field name that envy makes of a variable's name under a prefix: none
/// for a name that does not start with the prefix, else the name without
/// the prefix, as often as that is repeated at its start, in lower case.
pub uninterp spec fn envy_key(prefix: Seq<char>, name: Seq<char>) -> Option<Seq<char>>;

/// Calls `envy::prefixed(prefix).from_iter` on the one variable, read into
/// a map from names to texts, and hands out the map's key. envy drops a
/// variable whose name does not start with the prefix; of any other it
/// strips the prefix and lower-cases the rest, so the map then holds exactly
/// one key. That key is what `envy_key` names; nothing here is proved of it.
#[verifier::external_body]
fn envy_field_name(prefix: &str, name: &str) -> (r: Option<String>)
    ensures
        owned_text(r) == envy_key(prefix@, name@),
        r is Some <==> prefix@.is_prefix_of(name@),
{
    let one = std::iter::once((name.to_owned(), String::new()));
    let read: Result<std::collections::BTreeMap<String, String>, envy::Error> =
        envy::prefixed(prefix).from_iter(one);
    match read {
        Ok(keys) => keys.into_keys().next(),
        Err(_) => None,
    }
}

/// Whether a key is the field's name.
pub open spec fn key_is(key: Option<Seq<char>>, field: Field) -> bool {
    key == Some(field.spec_name())
}

/// Decides `key_is`.
pub fn key_names_field(key: &Option<String>, field: Field) -> (r: bool)
    ensures
        r == key_is(owned_text(*key), field),
{
    match key {
        Some(k) => same_text(k.as_str(), field.name()),
        None => false,
    }
}

/// Whether a variable of this name carries the field: envy, under the
/// prefix, makes the field's name of it.
pub open spec fn names_field(name: Seq<char>, field: Field) -> bool {
    key_is(envy_key(prefix(), name), field)
}

/// Decides `names_field`.
pub fn var_names_field(name: &str, field: Field) -> (r: bool)
    ensures
        r == names_field(name@, field),
        r ==> prefix().is_prefix_of(name@),
{
    let key: Option<String> = envy_field_name(PREFIX, name);
    key_names_field(&key, field)
}

/// A list of variables as pairs of texts: name, then value.
pub open spec fn pairs(v: Seq<(String, String)>) -> Seq<(Seq<char>, Seq<char>)> {
    Seq::new(v.len(), |i: int| (v[i].0@, v[i].1@))
}

/// The value of the first variable in the list that carries the field.
pub open spec fn first_for(vars: Seq<(Seq<char>, Seq<char>)>, field: Field) -> Option<Seq<char>>
    decreases vars.len(),
{
    if vars.len() == 0 {
        None
    } else if names_field(vars[0].0, field) {
        Some(vars[0].1)
    } else {
        first_for(vars.drop_first(), field)
    }
}

/// The value of the first variable in the list with exactly this name.
pub open spec fn first_named(vars: Seq<(Seq<char>, Seq<char>)>, name: Seq<char>) -> Option<Seq<char>>
    decreases vars.len(),
{
    if vars.len() == 0 {
        None
    } else if vars[0].0 == name {
        Some(vars[0].1)
    } else {
        first_named(vars.drop_first(), name)
    }
}

/// Variables that do not carry the field can be skipped.
pub proof fn lemma_first_for_skip(vars: Seq<(Seq<char>, Seq<char>)>, field: Field, k: int)
    requires
        0 <= k <= vars.len(),
        forall|j: int| 0 <= j < k ==> !names_field(#[trigger] vars[j].0, field),
    ensures
        first_for(vars, field) == first_for(vars.skip(k), field),
    decreases k,
{
    if k == 0 {
        assert(vars.skip(0) =~= vars);
    } else {
        let rest = vars.drop_first();
        assert(!names_field(vars[0].0, field));
        assert forall|j: int| 0 <= j < k - 1 implies !names_field(#[trigger] rest[j].0, field) by {
            assert(rest[j] == vars[j + 1]);
        }
        lemma_first_for_skip(rest, field, k - 1);
        assert(rest.skip(k - 1) =~= vars.skip(k));
    }
}

/// Variables with another name can be skipped.
pub proof fn lemma_first_named_skip(vars: Seq<(Seq<char>, Seq<char>)>, name: Seq<char>, k: int)
    requires
        0 <= k <= vars.len(),
        forall|j: int| 0 <= j < k ==> (#[trigger] vars[j]).0 != name,
    ensures
        first_named(vars, name) == first_named(vars.skip(k), name),
    decreases k,
{
    if k == 0 {
        assert(vars.skip(0) =~= vars);
    } else {
        let rest = vars.drop_first();
        assert(vars[0].0 != name);
        assert forall|j: int| 0 <= j < k - 1 implies (#[trigger] rest[j]).0 != name by {
            assert(rest[j] == vars[j + 1]);
        }
        lemma_first_named_skip(rest, name, k - 1);
        assert(rest.skip(k - 1) =~= vars.skip(k));
    }
}

/// Finds the value of the first variable that carries the field.
pub fn lookup<'a>(vars: &'a Vec<(String, String)>, field: Field) -> (r: Option<&'a str>)
    ensures
        text_of(r) == first_for(pairs(vars@), field),
{
    let n: usize = vars.len();
    let mut i: usize = 0;
    while i < n
        invariant
            n == vars@.len(),
            i <= n,
            forall|j: int| 0 <= j < i ==> !names_field(#[trigger] pairs(vars@)[j].0, field),
        decreases n - i,
    {
        if var_names_field(vars[i].0.as_str(), field) {
            proof {
                lemma_first_for_skip(pairs(vars@), field, i as int);
                assert(pairs(vars@).skip(i as int)[0] == pairs(vars@)[i as int]);
            }
            return Some(vars[i].1.as_str());
        }
        i += 1;
    }
    proof {
        lemma_first_for_skip(pairs(vars@), field, n as int);
    }
    None
}

/// Finds the value of the first variable with exactly this name.
pub fn lookup_named<'a>(vars: &'a Vec<(String, String)>, name: &str) -> (r: Option<&'a str>)
    ensures
        text_of(r) == first_named(pairs(vars@), name@),
{
    let n: usize = vars.len();
    let mut i: usize = 0;
    while i < n
        invariant
            n == vars@.len(),
            i <= n,
            forall|j: int| 0 <= j < i ==> (#[trigger] pairs(vars@)[j]).0 != name@,
        decreases n - i,
    {
        if same_text(vars[i].0.as_str(), name) {
            proof {
                lemma_first_named_skip(pairs(vars@), name@, i as int);
                assert(pairs(vars@).skip(i as int)[0] == pairs(vars@)[i as int]);
            }
            return Some(vars[i].1.as_str());
        }
        i += 1;
    }
    proof {
        lemma_first_named_skip(pairs(vars@), name@, n as int);
    }
    None
}

} // verus!
