//! Key/value configuration rows and their update changesets.

use vstd::prelude::*;

verus! {

/// A configuration row about to be inserted.
#[derive(Clone, Debug)]
pub struct ConfigNew {
    pub key: String,
    pub config: String,
}

/// A stored configuration row.
#[derive(Clone, Debug)]
pub struct Config {
    pub key: String,
    pub config: String,
}

/// An update request against a configuration row.
#[derive(Debug)]
pub enum ConfigUpdate {
    Update { config: Option<String> },
}

/// The changeset form of an update: only the columns that change.
#[derive(Debug)]
pub struct ConfigUpdateInternal {
    config: Option<String>,
}

impl ConfigUpdateInternal {
    /// The new row an update leaves behind, given the stored one. The
    /// changeset column is applied by the store itself, so the row comes
    /// through unchanged here.
    pub fn create_config(self, source: Config) -> (r: Config)
        ensures
            r == source,
    {
        Config { ..source }
    }
}

/// The changeset a configuration update resolves to.
pub closed spec fn spec_config_changeset(config_update: ConfigUpdate) -> ConfigUpdateInternal {
    match config_update {
        ConfigUpdate::Update { config } => ConfigUpdateInternal { config },
    }
}

impl From<ConfigUpdate> for ConfigUpdateInternal {
    fn from(config_update: ConfigUpdate) -> (r: Self) {
        match config_update {
            ConfigUpdate::Update { config } => ConfigUpdateInternal { config },
        }
    }
}

impl vstd::std_specs::convert::FromSpecImpl<ConfigUpdate> for ConfigUpdateInternal {
    open spec fn obeys_from_spec() -> bool {
        true
    }

    open spec fn from_spec(v: ConfigUpdate) -> Self {
        spec_config_changeset(v)
    }
}

/// The stored row a new row becomes: the same key and value.
pub open spec fn spec_config_of_new(config_new: ConfigNew) -> Config {
    Config { key: config_new.key, config: config_new.config }
}

impl From<ConfigNew> for Config {
    fn from(config_new: ConfigNew) -> (r: Self) {
        Config { key: config_new.key, config: config_new.config }
    }
}

impl vstd::std_specs::convert::FromSpecImpl<ConfigNew> for Config {
    open spec fn obeys_from_spec() -> bool {
        true
    }

    open spec fn from_spec(v: ConfigNew) -> Self {
        spec_config_of_new(v)
    }
}

} // verus!
