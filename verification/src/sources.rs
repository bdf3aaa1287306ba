//! The layers that a record is resolved from, and their order of precedence.

use vstd::prelude::*;
use vstd::string::*;
use crate::fields::{first_for, first_named, lookup, lookup_named, pairs, Field};
use crate::flags::{borrowed, Flags, FlagsView};
use crate::text::text_of;

verus! {

/// The variable that names the configuration file when no flag does.
pub const CONFIG_FILENAME_VAR: &'static str = "SKIPPER_CONFIG_FILENAME";

/// The configuration file's name when nothing else names it.
pub const DEFAULT_CONFIG_PATH: &'static str = ".env";

/// Everything a record is resolved from.
#[derive(Clone, Debug)]
pub struct Sources {
    /// The parsed command line.
    pub flags: Flags,
    /// The variables of the process environment: name, then value.
    pub environment: Vec<(String, String)>,
    /// The variables read from the configuration file, in the file's order;
    /// empty where no file was read.
    pub file: Vec<(String, String)>,
}

/// The layers as mathematical values.
pub struct SourcesView {
    pub flags: FlagsView,
    pub environment: Seq<(Seq<char>, Seq<char>)>,
    pub file: Seq<(Seq<char>, Seq<char>)>,
}

impl View for Sources {
    type V = SourcesView;

    open spec fn view(&self) -> SourcesView {
        SourcesView {
            flags: self.flags@,
            environment: pairs(self.environment@),
            file: pairs(self.file@),
        }
    }
}

impl SourcesView {
    /// What the environment and the file supply for the field: the
    /// environment's variable, else the file's. A variable of the file never
    /// replaces one that the environment already holds.
    pub open spec fn ambient(self, field: Field) -> Option<Seq<char>> {
        match first_for(self.environment, field) {
            Some(v) => Some(v),
            None => first_for(self.file, field),
        }
    }

    /// The text that wins for the field, before any default: the flag, else
    /// the network selector's endpoint, else the environment's variable,
    /// else the file's.
    pub open spec fn raw(self, field: Field) -> Option<Seq<char>> {
        match self.flags.value(field) {
            Some(v) => Some(v),
            None => self.ambient(field),
        }
    }
}

impl Sources {
    /// The text that wins for the field, before any default.
    pub fn raw<'a>(&'a self, field: Field) -> (r: Option<&'a str>)
        ensures
            text_of(r) == self@.raw(field),
    {
        match self.flags.value(field) {
            Some(v) => Some(v),
            None => match lookup(&self.environment, field) {
                Some(v) => Some(v),
                None => lookup(&self.file, field),
            },
        }
    }
}

/// Where the configuration file is looked for: the flag's path, else the
/// value of the environment's file-name variable, else the default name.
pub open spec fn config_path_of(flags: FlagsView, environment: Seq<(Seq<char>, Seq<char>)>) -> Seq<char> {
    match flags.config_path {
        Some(p) => p,
        None => match first_named(environment, "SKIPPER_CONFIG_FILENAME"@) {
            Some(p) => p,
            None => ".env"@,
        },
    }
}

/// Chooses the configuration file's path as `config_path_of` says.
pub fn config_path(flags: &Flags, environment: &Vec<(String, String)>) -> (r: String)
    ensures
        r@ == config_path_of(flags@, pairs(environment@)),
{
    match borrowed(&flags.config_path) {
        Some(p) => p.to_owned(),
        None => match lookup_named(environment, CONFIG_FILENAME_VAR) {
            Some(p) => p.to_owned(),
            None => DEFAULT_CONFIG_PATH.to_owned(),
        },
    }
}

} // verus!
