//! What loading `config.toml` decides once the file has been read and
//! parsed: keep it, fall back to defaults, or preserve it as corrupt evidence
//! under a fresh name.

use vstd::prelude::*;
use vstd::string::StringExecFns;

use super::runtime::{spec_semantically_valid, RuntimeConfig, CONFIG_VERSION};
use crate::text::encoding::{append_decimal, decimal_digits, push_char};

verus! {

/// The highest numbered suffix tried when naming preserved corrupt evidence.
pub const MAX_CORRUPT_NAME_SEQUENCE: u16 = 1024;

/// Why a loaded configuration is not the file on disk.
#[derive(Debug, Clone, PartialEq, Eq)]
pub enum ConfigWarning {
    CorruptPreserved(String),
    CorruptCouldNotBePreserved,
    UnsupportedNewerVersion(u32),
    ReadFailed(String),
}

/// The configuration to run with, and whether it may be written back.
#[derive(Debug, Clone, PartialEq, Eq)]
pub struct ConfigLoadOutcome {
    pub config: RuntimeConfig,
    pub warning: Option<ConfigWarning>,
    pub should_create_default: bool,
    /// False when an unreadable, unsupported, or unpreserved file still owns
    /// the canonical config path and must not be overwritten on close.
    pub persistence_allowed: bool,
}

/// What reading and parsing `config.toml` produced.
#[derive(Debug, Clone, PartialEq, Eq)]
pub enum ConfigSource {
    Missing,
    ReadFailed(String),
    Unparseable,
    Parsed(RuntimeConfig),
}

/// The next step of loading: an outcome, or preserving the file as corrupt.
#[derive(Debug, Clone, PartialEq, Eq)]
pub enum ConfigLoadStep {
    Loaded(ConfigLoadOutcome),
    PreserveCorrupt,
}

/// A missing file starts from defaults that may be created; an unreadable
/// file or one from a newer version keeps defaults without ever overwriting
/// it; an unparseable, older or semantically invalid file is preserved as
/// corrupt; a valid current file is used as it is.
pub open spec fn spec_classify(source: ConfigSource, defaults: RuntimeConfig) -> ConfigLoadStep {
    match source {
        ConfigSource::Missing => ConfigLoadStep::Loaded(
            ConfigLoadOutcome {
                config: defaults,
                warning: None,
                should_create_default: true,
                persistence_allowed: true,
            },
        ),
        ConfigSource::ReadFailed(message) => ConfigLoadStep::Loaded(
            ConfigLoadOutcome {
                config: defaults,
                warning: Some(ConfigWarning::ReadFailed(message)),
                should_create_default: false,
                persistence_allowed: false,
            },
        ),
        ConfigSource::Unparseable => ConfigLoadStep::PreserveCorrupt,
        ConfigSource::Parsed(parsed) => if parsed.version > CONFIG_VERSION {
            ConfigLoadStep::Loaded(
                ConfigLoadOutcome {
                    config: defaults,
                    warning: Some(ConfigWarning::UnsupportedNewerVersion(parsed.version)),
                    should_create_default: false,
                    persistence_allowed: false,
                },
            )
        } else if parsed.version != CONFIG_VERSION || !spec_semantically_valid(parsed) {
            ConfigLoadStep::PreserveCorrupt
        } else {
            ConfigLoadStep::Loaded(
                ConfigLoadOutcome {
                    config: parsed,
                    warning: None,
                    should_create_default: false,
                    persistence_allowed: true,
                },
            )
        },
    }
}

/// Decides what a read of `config.toml` leads to; `defaults` is the default
/// configuration used wherever the file is not.
pub fn classify_config_source(source: ConfigSource, defaults: RuntimeConfig) -> (r: ConfigLoadStep)
    ensures
        r == spec_classify(source, defaults),
{
    match source {
        ConfigSource::Missing => ConfigLoadStep::Loaded(
            ConfigLoadOutcome {
                config: defaults,
                warning: None,
                should_create_default: true,
                persistence_allowed: true,
            },
        ),
        ConfigSource::ReadFailed(message) => ConfigLoadStep::Loaded(
            ConfigLoadOutcome {
                config: defaults,
                warning: Some(ConfigWarning::ReadFailed(message)),
                should_create_default: false,
                persistence_allowed: false,
            },
        ),
        ConfigSource::Unparseable => ConfigLoadStep::PreserveCorrupt,
        ConfigSource::Parsed(parsed) => {
            if parsed.version > CONFIG_VERSION {
                let version = parsed.version;
                ConfigLoadStep::Loaded(
                    ConfigLoadOutcome {
                        config: defaults,
                        warning: Some(ConfigWarning::UnsupportedNewerVersion(version)),
                        should_create_default: false,
                        persistence_allowed: false,
                    },
                )
            } else if parsed.version != CONFIG_VERSION || !parsed.is_semantically_valid() {
                ConfigLoadStep::PreserveCorrupt
            } else {
                ConfigLoadStep::Loaded(
                    ConfigLoadOutcome {
                        config: parsed,
                        warning: None,
                        should_create_default: false,
                        persistence_allowed: true,
                    },
                )
            }
        },
    }
}

/// The outcome once a corrupt file was moved aside to `preserved`, or could
/// not be: defaults, created and written back only when the evidence is safe.
pub fn corrupt_config_outcome(preserved: Option<String>, defaults: RuntimeConfig) -> (r:
    ConfigLoadOutcome)
    ensures
        r.config == defaults,
        r.should_create_default == preserved is Some,
        r.persistence_allowed == preserved is Some,
        match preserved {
            Some(path) => r.warning == Some(ConfigWarning::CorruptPreserved(path)),
            None => r.warning == Some(ConfigWarning::CorruptCouldNotBePreserved),
        },
{
    match preserved {
        Some(path) => ConfigLoadOutcome {
            config: defaults,
            warning: Some(ConfigWarning::CorruptPreserved(path)),
            should_create_default: true,
            persistence_allowed: true,
        },
        None => ConfigLoadOutcome {
            config: defaults,
            warning: Some(ConfigWarning::CorruptCouldNotBePreserved),
            should_create_default: false,
            persistence_allowed: false,
        },
    }
}

/// `config.invalid-STAMP.toml`, or `config.invalid-STAMP-SEQUENCE.toml` for a
/// later attempt.
pub open spec fn spec_corrupt_config_name(stamp: u64, sequence: u16) -> Seq<char> {
    seq!['c', 'o', 'n', 'f', 'i', 'g', '.', 'i', 'n', 'v', 'a', 'l', 'i', 'd', '-'] + decimal_digits(
        stamp as nat,
    ) + (if sequence == 0 {
        Seq::empty()
    } else {
        seq!['-'] + decimal_digits(sequence as nat)
    }) + seq!['.', 't', 'o', 'm', 'l']
}

/// The file name tried for preserving corrupt configuration evidence.
pub fn corrupt_config_name(stamp: u64, sequence: u16) -> (r: String)
    ensures
        r@ == spec_corrupt_config_name(stamp, sequence),
{
    let mut name = String::from_str("config.invalid-");
    proof {
        reveal_strlit("config.invalid-");
    }
    append_decimal(&mut name, stamp);
    let ghost stamped = name@;
    if sequence != 0 {
        push_char(&mut name, '-');
        append_decimal(&mut name, sequence as u64);
    }
    name.append(".toml");
    proof {
        reveal_strlit(".toml");
        assert(name@ =~= spec_corrupt_config_name(stamp, sequence));
    }
    name
}

} // verus!
