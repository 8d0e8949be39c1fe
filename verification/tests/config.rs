use lqos_xdp::attach_mode::{XdpAttachMode, DEFAULT_LIBXDP_PRIORITY};
use lqos_xdp::config::{ConfigError, ConfigValue, PriorityField};

/// The value as a TOML table.
fn to_table(value: ConfigValue) -> toml::Table {
    let mut table = toml::Table::new();
    match value {
        ConfigValue::Name(_) => panic!("a mode is written as a table"),
        ConfigValue::Table { mode, priority } => {
            table.insert("mode".to_string(), toml::Value::String(mode));
            match priority {
                PriorityField::Absent => {}
                PriorityField::Number(n) => {
                    table.insert("priority".to_string(), toml::Value::Integer(i64::from(n)));
                }
                PriorityField::Malformed => panic!("no mode is written so"),
            }
        }
    }
    table
}

/// A TOML value as the library takes it.
fn from_toml(value: &toml::Value) -> ConfigValue {
    match value {
        toml::Value::String(name) => ConfigValue::Name(name.clone()),
        toml::Value::Table(table) => ConfigValue::Table {
            mode: table["mode"].as_str().unwrap().to_string(),
            priority: match table.get("priority") {
                None => PriorityField::Absent,
                Some(toml::Value::Integer(n)) => match u32::try_from(*n) {
                    Ok(n) => PriorityField::Number(n),
                    Err(_) => PriorityField::Malformed,
                },
                Some(_) => PriorityField::Malformed,
            },
        },
        _ => panic!("neither a name nor a table"),
    }
}

/// Reads the setting out of a line of the configuration file.
fn read(line: &str) -> Result<XdpAttachMode, ConfigError> {
    let table: toml::Table = toml::from_str(line).unwrap();
    XdpAttachMode::from_config(&from_toml(&table["xdp_attach_mode"]))
}

fn round_trip(mode: XdpAttachMode) -> XdpAttachMode {
    let s = toml::to_string(&to_table(mode.to_config())).unwrap();
    let back: toml::Table = toml::from_str(&s).unwrap();
    XdpAttachMode::from_config(&from_toml(&toml::Value::Table(back))).unwrap()
}

#[test]
fn toml_roundtrip_raw() {
    let mode = XdpAttachMode::Raw;
    let back = round_trip(mode);
    assert_eq!(mode, back);
}

#[test]
fn toml_roundtrip_libxdp() {
    let mode = XdpAttachMode::Libxdp { priority: 42 };
    let back = round_trip(mode);
    assert_eq!(mode, back);
}

#[test]
fn written_form() {
    assert_eq!(
        XdpAttachMode::Raw.to_config(),
        ConfigValue::Table { mode: "raw".to_string(), priority: PriorityField::Absent },
    );
    assert_eq!(
        XdpAttachMode::Libxdp { priority: 42 }.to_config(),
        ConfigValue::Table { mode: "libxdp".to_string(), priority: PriorityField::Number(42) },
    );
}

#[test]
fn documented_lines_are_read() {
    assert_eq!(read("xdp_attach_mode = \"raw\""), Ok(XdpAttachMode::Raw));
    assert_eq!(
        read("xdp_attach_mode = \"libxdp\""),
        Ok(XdpAttachMode::Libxdp { priority: DEFAULT_LIBXDP_PRIORITY }),
    );
    assert_eq!(
        read("xdp_attach_mode = { mode = \"libxdp\", priority = 10 }"),
        Ok(XdpAttachMode::Libxdp { priority: 10 }),
    );
    assert_eq!(read("xdp_attach_mode = { mode = \"raw\" }"), Ok(XdpAttachMode::Raw));
}

#[test]
fn missing_priority_is_the_default() {
    assert_eq!(
        read("xdp_attach_mode = { mode = \"libxdp\" }"),
        Ok(XdpAttachMode::Libxdp { priority: 10 }),
    );
}

#[test]
fn malformed_priority_is_refused() {
    for line in [
        "xdp_attach_mode = { mode = \"libxdp\", priority = \"10\" }",
        "xdp_attach_mode = { mode = \"libxdp\", priority = -1 }",
        "xdp_attach_mode = { mode = \"libxdp\", priority = 4294967296 }",
    ] {
        assert_eq!(read(line), Err(ConfigError::MalformedPriority));
    }
}

#[test]
fn raw_ignores_the_priority() {
    assert_eq!(read("xdp_attach_mode = { mode = \"raw\", priority = 3 }"), Ok(XdpAttachMode::Raw));
    assert_eq!(
        read("xdp_attach_mode = { mode = \"raw\", priority = \"x\" }"),
        Ok(XdpAttachMode::Raw),
    );
}

#[test]
fn unknown_modes_are_refused() {
    for name in ["", "RAW", "libxdp:50", "native"] {
        assert_eq!(
            XdpAttachMode::from_config(&ConfigValue::Name(name.to_string())),
            Err(ConfigError::UnknownMode(name.to_string())),
        );
        assert_eq!(
            XdpAttachMode::from_config(&ConfigValue::Table {
                mode: name.to_string(),
                priority: PriorityField::Malformed,
            }),
            Err(ConfigError::UnknownMode(name.to_string())),
        );
    }
}
