//! What holds of every resolution: when it succeeds, when it fails, which
//! source wins, and that a holder resolves once.

use vstd::prelude::*;
use crate::cache::{settled, Resolution};
use crate::config::{failure, record, resolved, ConfigView};
use crate::fields::{first_for, Field};
use crate::flags::{presence, Chain, Flag, FlagsView};
use crate::sources::SourcesView;
use crate::values::{default_of, outcome, read_as, ConfigErrorView, Value};

verus! {

/// Whether the text that wins for the field, if any, can be read as a value
/// of the field's shape. Absence is in order here, and so is an empty text
/// for a field with a default.
pub open spec fn well_typed(src: SourcesView, field: Field) -> bool {
    match src.raw(field) {
        Some(s) => (s.len() == 0 && default_of(field) is Some) || read_as(field, s) is Some,
        None => true,
    }
}

/// What a field with a default comes to: the default where no text wins or
/// the winning text is empty, else the winning text read as the field's shape.
pub open spec fn populated(src: SourcesView, field: Field) -> Option<Value> {
    match src.raw(field) {
        Some(s) => if s.len() == 0 {
            default_of(field)
        } else {
            read_as(field, s)
        },
        None => default_of(field),
    }
}

/// A successful resolution holds, for every field, what the field comes to.
pub proof fn lemma_record_holds_outcomes(src: SourcesView, field: Field)
    requires
        resolved(src) is Ok,
    ensures
        failure(src, field) is None,
        outcome(field, src.raw(field)) == Ok::<Value, ConfigErrorView>(
            resolved(src)->Ok_0.get(field),
        ),
{
}

/// Resolution succeeds exactly when no field fails.
pub proof fn lemma_resolved_iff_no_failure(src: SourcesView)
    ensures
        resolved(src) is Ok <==> forall|f: Field| failure(src, f) is None,
{
    if resolved(src) is Ok {
        assert forall|f: Field| failure(src, f) is None by {
            lemma_record_holds_outcomes(src, f);
        }
    }
}

/// Where some layer supplies the endpoint and some layer the watched
/// identities, and every text that wins can be read as its field's shape,
/// resolution succeeds, and every field with a default holds its default or
/// the value that a source supplied.
pub proof fn lemma_resolves_when_required_supplied(src: SourcesView)
    requires
        src.raw(Field::SubstrateWsUrl) is Some,
        src.raw(Field::Stashes) is Some,
        forall|f: Field| well_typed(src, f),
    ensures
        resolved(src) is Ok,
        resolved(src)->Ok_0 == record(src),
        forall|f: Field|
            default_of(f) is Some ==> #[trigger] populated(src, f) == Some(
                resolved(src)->Ok_0.get(f),
            ),
{
    assert forall|f: Field| failure(src, f) is None by {
        assert(well_typed(src, f));
    }
    assert forall|f: Field| default_of(f) is Some implies #[trigger] populated(src, f) == Some(
        resolved(src)->Ok_0.get(f),
    ) by {
        lemma_record_holds_outcomes(src, f);
    }
}

/// Where no layer supplies the endpoint, resolution fails: with the missing
/// endpoint, unless one of the two intervals, which come first in the
/// record, holds a text that is no number.
pub proof fn lemma_fails_without_endpoint(src: SourcesView)
    requires
        src.flags.substrate_ws_url is None,
        src.flags.chain is None,
        first_for(src.environment, Field::SubstrateWsUrl) is None,
        first_for(src.file, Field::SubstrateWsUrl) is None,
    ensures
        resolved(src) is Err,
        failure(src, Field::Interval) is None && failure(src, Field::ErrorInterval) is None
            ==> resolved(src) == Err::<ConfigView, ConfigErrorView>(
            ConfigErrorView::MissingValue(Field::SubstrateWsUrl),
        ),
{
}

/// The order of precedence, field by field: the flag, else the network
/// selector's endpoint, else the environment's variable, else the file's.
pub proof fn lemma_precedence(src: SourcesView, field: Field)
    ensures
        src.raw(field) == if src.flags.explicit(field) is Some {
            src.flags.explicit(field)
        } else if src.flags.shortcut(field) is Some {
            src.flags.shortcut(field)
        } else if first_for(src.environment, field) is Some {
            first_for(src.environment, field)
        } else {
            first_for(src.file, field)
        },
{
}

/// A value given by a flag wins over whatever the environment and the file
/// hold for the field: two sets of sources that differ in those layers
/// alone come to the same for that field.
pub proof fn lemma_flag_wins(src: SourcesView, other: SourcesView, field: Field, v: Seq<char>)
    requires
        src.flags.explicit(field) == Some(v),
        other.flags == src.flags,
    ensures
        src.raw(field) == Some(v),
        outcome(field, other.raw(field)) == outcome(field, src.raw(field)),
        resolved(src) is Ok ==> outcome(field, Some(v)) == Ok::<Value, ConfigErrorView>(
            resolved(src)->Ok_0.get(field),
        ),
{
    if resolved(src) is Ok {
        lemma_record_holds_outcomes(src, field);
    }
}

/// A value that the file supplies wins over the field's default where
/// neither the command line nor the environment supplies the field: the
/// record holds the file's text, read as the field's shape.
pub proof fn lemma_file_beats_default(src: SourcesView, field: Field, v: Seq<char>)
    requires
        src.flags.value(field) is None,
        first_for(src.environment, field) is None,
        first_for(src.file, field) == Some(v),
        v.len() > 0,
    ensures
        src.raw(field) == Some(v),
        resolved(src) is Ok ==> read_as(field, v) == Some(resolved(src)->Ok_0.get(field)),
{
    if resolved(src) is Ok {
        lemma_record_holds_outcomes(src, field);
    }
}

/// A field that no layer supplies holds its default.
pub proof fn lemma_default_when_unsupplied(src: SourcesView, field: Field)
    requires
        src.raw(field) is None,
        resolved(src) is Ok,
    ensures
        default_of(field) == Some(resolved(src)->Ok_0.get(field)),
{
    lemma_record_holds_outcomes(src, field);
}

/// The network selector without an endpoint flag gives the network's
/// well-known endpoint; with an endpoint flag, the flag's endpoint.
pub proof fn lemma_network_shortcut(src: SourcesView, chain: Chain)
    requires
        src.flags.chain == Some(chain),
        resolved(src) is Ok,
    ensures
        src.flags.substrate_ws_url is None ==> resolved(src)->Ok_0.substrate_ws_url
            == chain.spec_url(),
        src.flags.substrate_ws_url is Some ==> resolved(src)->Ok_0.substrate_ws_url
            == src.flags.substrate_ws_url->0,
{
    lemma_record_holds_outcomes(src, Field::SubstrateWsUrl);
}

/// A holder hands out on a second request what it handed out on the first,
/// whatever the sources of the second request are.
pub proof fn lemma_second_request_same(
    held: Option<Resolution>,
    first: SourcesView,
    second: SourcesView,
)
    ensures
        settled(Some(settled(held, first)), second) == settled(held, first),
{
}

/// A flag that was given supplies its own field, with its value or, for a
/// flag without a value, the truthy literal, and leaves every other field
/// as the command line had it.
pub proof fn lemma_given_flag_supplies_field(flags: FlagsView, flag: Flag, v: Seq<char>, other: Field)
    requires
        flag.spec_field() is Some,
    ensures
        flag.spec_takes_value() ==> flags.with(flag, Some(v)).explicit(flag.spec_field()->0)
            == Some(v),
        !flag.spec_takes_value() ==> flags.with(flag, None).explicit(flag.spec_field()->0)
            == presence(true),
        other != flag.spec_field()->0 ==> flags.with(flag, Some(v)).explicit(other)
            == flags.explicit(other),
        flags.with(flag, Some(v)).chain == flags.chain,
{
}

/// No two flags supply the same field, and every field but the polling
/// interval has its flag.
pub proof fn lemma_flags_and_fields(a: Flag, b: Flag, field: Field)
    ensures
        a.spec_field() is Some && a.spec_field() == b.spec_field() ==> a == b,
        field != Field::Interval ==> exists|f: Flag| f.spec_field() == Some(field),
        Flag::spec_all().contains(a),
{
    match field {
        Field::Interval => {},
        Field::ErrorInterval => {
            assert(Flag::ErrorInterval.spec_field() == Some(field));
        },
        Field::SubstrateWsUrl => {
            assert(Flag::SubstrateWsUrl.spec_field() == Some(field));
        },
        Field::Stashes => {
            assert(Flag::Stashes.spec_field() == Some(field));
        },
        Field::IsDebug => {
            assert(Flag::Debug.spec_field() == Some(field));
        },
        Field::IsShort => {
            assert(Flag::Short.spec_field() == Some(field));
        },
        Field::HookNewSessionPath => {
            assert(Flag::HookNewSessionPath.spec_field() == Some(field));
        },
        Field::HookActiveNextEraPath => {
            assert(Flag::HookActiveNextEraPath.spec_field() == Some(field));
        },
        Field::HookInactiveNextEraPath => {
            assert(Flag::HookInactiveNextEraPath.spec_field() == Some(field));
        },
        Field::MatrixUser => {
            assert(Flag::MatrixUser.spec_field() == Some(field));
        },
        Field::MatrixBotUser => {
            assert(Flag::MatrixBotUser.spec_field() == Some(field));
        },
        Field::MatrixBotPassword => {
            assert(Flag::MatrixBotPassword.spec_field() == Some(field));
        },
        Field::MatrixDisabled => {
            assert(Flag::DisableMatrix.spec_field() == Some(field));
        },
        Field::MatrixPublicRoomDisabled => {
            assert(Flag::DisablePublicMatrixRoom.spec_field() == Some(field));
        },
        Field::MatrixBotDisplayNameDisabled => {
            assert(Flag::DisableMatrixBotDisplayName.spec_field() == Some(field));
        },
    }
    let all = Flag::spec_all();
    match a {
        Flag::Debug => {
            assert(all[0] == a);
        },
        Flag::MatrixUser => {
            assert(all[1] == a);
        },
        Flag::MatrixBotUser => {
            assert(all[2] == a);
        },
        Flag::MatrixBotPassword => {
            assert(all[3] == a);
        },
        Flag::DisableMatrix => {
            assert(all[4] == a);
        },
        Flag::DisablePublicMatrixRoom => {
            assert(all[5] == a);
        },
        Flag::DisableMatrixBotDisplayName => {
            assert(all[6] == a);
        },
        Flag::Short => {
            assert(all[7] == a);
        },
        Flag::ErrorInterval => {
            assert(all[8] == a);
        },
        Flag::Stashes => {
            assert(all[9] == a);
        },
        Flag::SubstrateWsUrl => {
            assert(all[10] == a);
        },
        Flag::ConfigPath => {
            assert(all[11] == a);
        },
        Flag::HookNewSessionPath => {
            assert(all[12] == a);
        },
        Flag::HookActiveNextEraPath => {
            assert(all[13] == a);
        },
        Flag::HookInactiveNextEraPath => {
            assert(all[14] == a);
        },
    }
}

/// Each network is selected by its own name, and by no other's.
pub proof fn lemma_selector_names(chain: Chain)
    ensures
        Chain::spec_from_name(chain.spec_name()) == Some(chain),
        Chain::spec_all().contains(chain),
{
    reveal_strlit("westend");
    reveal_strlit("kusama");
    reveal_strlit("polkadot");
    let all = Chain::spec_all();
    match chain {
        Chain::Westend => {
            assert(all[0] == chain);
        },
        Chain::Kusama => {
            assert(all[1] == chain);
            assert("kusama"@.len() == 6 && "westend"@.len() == 7);
        },
        Chain::Polkadot => {
            assert(all[2] == chain);
            assert("polkadot"@.len() == 8 && "westend"@.len() == 7 && "kusama"@.len() == 6);
        },
    }
}

} // verus!
