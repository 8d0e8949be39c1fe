//! The attach mode as a value of the configuration file.
//!
//! ```toml
//! xdp_attach_mode = "raw"
//! # or
//! xdp_attach_mode = { mode = "libxdp", priority = 10 }
//! ```
//!
//! A bare name stands for a table with that `mode` and no `priority`.

use vstd::prelude::*;

use crate::attach_mode::{default_libxdp_priority, XdpAttachMode, DEFAULT_LIBXDP_PRIORITY};
use crate::text::eq;

verus! {

/// The `priority` field of a configuration table.
#[derive(Clone, Copy, Debug, PartialEq, Eq, Structural)]
pub enum PriorityField {
    /// The table has no such field.
    Absent,
    /// The field holds a number that a `u32` can hold.
    Number(u32),
    /// The field holds anything else.
    Malformed,
}

/// A configuration value, with everything taken off it that the attach mode does
/// not depend on.
#[derive(Debug, PartialEq, Eq)]
pub enum ConfigValue {
    /// A bare string.
    Name(String),
    /// A table with a `mode` that is a string.
    Table { mode: String, priority: PriorityField },
}

/// Why a configuration value selects no attach mode.
#[derive(Debug, PartialEq, Eq)]
pub enum ConfigError {
    /// There is no mode of this name.
    UnknownMode(String),
    /// The mode has a priority and this one is no `u32`.
    MalformedPriority,
}

/// What a mode name and a priority field select.
pub open spec fn selected(mode: Seq<char>, priority: PriorityField) -> Option<XdpAttachMode> {
    if mode == "raw"@ {
        Some(XdpAttachMode::Raw)
    } else if mode == "libxdp"@ {
        match priority {
            PriorityField::Absent => Some(
                XdpAttachMode::Libxdp { priority: DEFAULT_LIBXDP_PRIORITY },
            ),
            PriorityField::Number(n) => Some(XdpAttachMode::Libxdp { priority: n }),
            PriorityField::Malformed => None,
        }
    } else {
        None
    }
}

impl ConfigValue {
    /// The name of the mode.
    pub open spec fn mode_name(self) -> Seq<char> {
        match self {
            ConfigValue::Name(name) => name@,
            ConfigValue::Table { mode, .. } => mode@,
        }
    }

    /// The priority field. A bare name has none.
    pub open spec fn priority_field(self) -> PriorityField {
        match self {
            ConfigValue::Name(_) => PriorityField::Absent,
            ConfigValue::Table { priority, .. } => priority,
        }
    }
}

impl XdpAttachMode {
    /// The name of the mode in the configuration.
    pub open spec fn name_text(self) -> Seq<char> {
        match self {
            XdpAttachMode::Raw => "raw"@,
            XdpAttachMode::Libxdp { .. } => "libxdp"@,
        }
    }

    /// The priority field with which the mode is written.
    pub open spec fn written_priority(self) -> PriorityField {
        match self {
            XdpAttachMode::Raw => PriorityField::Absent,
            XdpAttachMode::Libxdp { priority } => PriorityField::Number(priority),
        }
    }

    /// Reads the attach mode from a configuration value. `raw` takes no
    /// priority, so whatever stands in that field beside it is ignored.
    pub fn from_config(value: &ConfigValue) -> (res: Result<Self, ConfigError>)
        ensures
            match res {
                Ok(mode) => selected(value.mode_name(), value.priority_field()) == Some(mode),
                Err(ConfigError::UnknownMode(name)) => {
                    &&& name@ == value.mode_name()
                    &&& value.mode_name() != "raw"@
                    &&& value.mode_name() != "libxdp"@
                },
                Err(ConfigError::MalformedPriority) => {
                    &&& value.mode_name() == "libxdp"@
                    &&& value.priority_field() == PriorityField::Malformed
                },
            },
            match *value {
                ConfigValue::Name(name) => if name@ == "raw"@ {
                    res == Ok::<XdpAttachMode, ConfigError>(XdpAttachMode::Raw)
                } else if name@ == "libxdp"@ {
                    res == Ok::<XdpAttachMode, ConfigError>(
                        (XdpAttachMode::Libxdp { priority: 10 }),
                    )
                } else {
                    res matches Err(ConfigError::UnknownMode(unknown)) && unknown@ == name@
                },
                ConfigValue::Table { mode, priority } => if mode@ == "raw"@ {
                    res == Ok::<XdpAttachMode, ConfigError>(XdpAttachMode::Raw)
                } else if mode@ == "libxdp"@ {
                    match priority {
                        PriorityField::Absent => res == Ok::<XdpAttachMode, ConfigError>(
                            (XdpAttachMode::Libxdp { priority: 10 }),
                        ),
                        PriorityField::Number(n) => res == Ok::<XdpAttachMode, ConfigError>(
                            (XdpAttachMode::Libxdp { priority: n }),
                        ),
                        PriorityField::Malformed => res == Err::<XdpAttachMode, ConfigError>(
                            ConfigError::MalformedPriority,
                        ),
                    }
                } else {
                    res matches Err(ConfigError::UnknownMode(unknown)) && unknown@ == mode@
                },
            },
    {
        proof {
            lemma_names_differ();
        }
        let (name, priority): (&str, PriorityField) = match value {
            ConfigValue::Name(name) => (name.as_str(), PriorityField::Absent),
            ConfigValue::Table { mode, priority } => (mode.as_str(), *priority),
        };
        if eq(name, "raw") {
            return Ok(XdpAttachMode::Raw);
        }
        if eq(name, "libxdp") {
            return match priority {
                PriorityField::Absent => Ok(
                    XdpAttachMode::Libxdp { priority: default_libxdp_priority() },
                ),
                PriorityField::Number(n) => Ok(XdpAttachMode::Libxdp { priority: n }),
                PriorityField::Malformed => Err(ConfigError::MalformedPriority),
            };
        }
        Err(ConfigError::UnknownMode(name.to_owned()))
    }

    /// Writes the attach mode as a configuration table.
    pub fn to_config(&self) -> (res: ConfigValue)
        ensures
            res is Table,
            res.mode_name() == self.name_text(),
            res.priority_field() == self.written_priority(),
            match *self {
                XdpAttachMode::Raw => res matches ConfigValue::Table { mode, priority } && mode@
                    == "raw"@ && priority == PriorityField::Absent,
                XdpAttachMode::Libxdp { priority: n } => res matches ConfigValue::Table {
                    mode,
                    priority,
                } && mode@ == "libxdp"@ && priority == PriorityField::Number(n),
            },
    {
        match self {
            XdpAttachMode::Raw => ConfigValue::Table {
                mode: "raw".to_owned(),
                priority: PriorityField::Absent,
            },
            XdpAttachMode::Libxdp { priority } => ConfigValue::Table {
                mode: "libxdp".to_owned(),
                priority: PriorityField::Number(*priority),
            },
        }
    }
}

proof fn lemma_names_differ()
    ensures
        "raw"@ != "libxdp"@,
{
    reveal_strlit("raw");
    reveal_strlit("libxdp");
    assert("raw"@.len() != "libxdp"@.len());
}

/// Reading what was written gives the attach mode back.
pub proof fn law_config_round_trip(mode: XdpAttachMode)
    ensures
        selected(mode.name_text(), mode.written_priority()) == Some(mode),
{
    lemma_names_differ();
}

/// A priority that is given is the priority that is selected, whatever it is,
/// and is written as it is. Where none is given it is 10. `raw` has none, and no
/// other name selects anything.
pub proof fn law_config_priority(n: u32, name: Seq<char>, field: PriorityField)
    ensures
        selected("libxdp"@, PriorityField::Number(n)) matches Some(
            XdpAttachMode::Libxdp { priority },
        ) && priority == n,
        (XdpAttachMode::Libxdp { priority: n }).name_text() == "libxdp"@,
        (XdpAttachMode::Libxdp { priority: n }).written_priority() matches PriorityField::Number(
            written,
        ) && written == n,
        selected("libxdp"@, PriorityField::Absent) matches Some(
            XdpAttachMode::Libxdp { priority },
        ) && priority == 10,
        selected("libxdp"@, PriorityField::Malformed) is None,
        selected("raw"@, field) == Some(XdpAttachMode::Raw),
        XdpAttachMode::Raw.name_text() == "raw"@,
        XdpAttachMode::Raw.written_priority() == PriorityField::Absent,
        name != "raw"@ && name != "libxdp"@ ==> selected(name, field) is None,
{
    lemma_names_differ();
}

} // verus!
