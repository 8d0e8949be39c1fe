use lqos_xdp::attach_mode::{default_libxdp_priority, XdpAttachMode, DEFAULT_LIBXDP_PRIORITY};

#[test]
fn default_is_raw() {
    assert_eq!(XdpAttachMode::default(), XdpAttachMode::Raw);
}

#[test]
fn parse_cli_raw() {
    assert_eq!(XdpAttachMode::parse_cli("raw").unwrap(), XdpAttachMode::Raw);
    assert_eq!(XdpAttachMode::parse_cli("RAW").unwrap(), XdpAttachMode::Raw);
}

#[test]
fn parse_cli_libxdp_default_priority() {
    assert_eq!(
        XdpAttachMode::parse_cli("libxdp").unwrap(),
        XdpAttachMode::Libxdp { priority: DEFAULT_LIBXDP_PRIORITY },
    );
}

#[test]
fn parse_cli_libxdp_with_priority() {
    assert_eq!(
        XdpAttachMode::parse_cli("libxdp:50").unwrap(),
        XdpAttachMode::Libxdp { priority: 50 },
    );
    assert_eq!(
        XdpAttachMode::parse_cli("libxdp=50").unwrap(),
        XdpAttachMode::Libxdp { priority: 50 },
    );
}

#[test]
fn parse_cli_rejects_garbage() {
    assert!(XdpAttachMode::parse_cli("foo").is_err());
    assert!(XdpAttachMode::parse_cli("libxdpfoo").is_err());
    assert!(XdpAttachMode::parse_cli("libxdp:not-a-number").is_err());
}

#[test]
fn default_priority_runs_late() {
    assert_eq!(default_libxdp_priority(), 10);
    assert!(default_libxdp_priority() < 50);
}

#[test]
fn complaints_are_worded() {
    assert_eq!(
        XdpAttachMode::parse_cli(" foo").unwrap_err(),
        "unrecognized xdp-attach-mode ` foo` (expected `raw`, `libxdp`, or `libxdp:<priority>`)",
    );
    assert_eq!(
        XdpAttachMode::parse_cli("libxdpfoo").unwrap_err(),
        "unrecognized xdp-attach-mode `libxdpfoo` (expected `raw`, `libxdp`, or `libxdp:<priority>`)",
    );
    assert_eq!(
        XdpAttachMode::parse_cli("libxdp:").unwrap_err(),
        "invalid libxdp priority ``: cannot parse integer from empty string",
    );
    assert_eq!(
        XdpAttachMode::parse_cli("libxdp:not-a-number ").unwrap_err(),
        "invalid libxdp priority `not-a-number`: invalid digit found in string",
    );
    assert_eq!(
        XdpAttachMode::parse_cli("libxdp=4294967296").unwrap_err(),
        "invalid libxdp priority `4294967296`: number too large to fit in target type",
    );
}

#[test]
fn case_matters_for_libxdp_only() {
    for s in ["rAw", "Raw", "raW"] {
        assert_eq!(XdpAttachMode::parse_cli(s), Ok(XdpAttachMode::Raw));
    }
    assert!(XdpAttachMode::parse_cli("LIBXDP").is_err());
    assert!(XdpAttachMode::parse_cli("Libxdp:5").is_err());
}

#[test]
fn written_priorities_are_read_back() {
    for priority in [0u32, 1, 9, 10, 11, 99, 100, 4294967294, 4294967295] {
        let expected = Ok(XdpAttachMode::Libxdp { priority });
        assert_eq!(XdpAttachMode::parse_cli(&format!("libxdp:{priority}")), expected);
        assert_eq!(XdpAttachMode::parse_cli(&format!("libxdp={priority}")), expected);
    }
}

#[test]
fn separators_agree() {
    for p in ["", "7", "+7", "-7", ":7", " 7", "7 ", "99999999999"] {
        assert_eq!(
            XdpAttachMode::parse_cli(&format!("libxdp:{p}")),
            XdpAttachMode::parse_cli(&format!("libxdp={p}")),
        );
    }
}

#[test]
fn white_space_around_does_not_count() {
    assert_eq!(XdpAttachMode::parse_cli("\t raw\r\n"), Ok(XdpAttachMode::Raw));
    assert_eq!(
        XdpAttachMode::parse_cli("\u{3000}libxdp:3\u{2028}"),
        Ok(XdpAttachMode::Libxdp { priority: 3 }),
    );
    assert!(XdpAttachMode::parse_cli("r aw").is_err());
    assert!(XdpAttachMode::parse_cli("  ").is_err());
}

#[test]
fn white_space_is_that_of_unicode() {
    for c in '\0'..=char::MAX {
        let s = format!("{c}raw");
        assert_eq!(XdpAttachMode::parse_cli(&s).is_ok(), c.is_whitespace(), "{c:?}");
    }
}

/// The same reading with the string functions of the standard library.
fn read_with_std(s: &str) -> Result<XdpAttachMode, String> {
    let t = s.trim();
    if t.eq_ignore_ascii_case("raw") {
        return Ok(XdpAttachMode::Raw);
    }
    if t == "libxdp" {
        return Ok(XdpAttachMode::Libxdp { priority: 10 });
    }
    match t.strip_prefix("libxdp:").or(t.strip_prefix("libxdp=")) {
        Some(p) => match p.parse::<u32>() {
            Ok(priority) => Ok(XdpAttachMode::Libxdp { priority }),
            Err(e) => Err(format!("invalid libxdp priority `{p}`: {e}")),
        },
        None => Err(format!(
            "unrecognized xdp-attach-mode `{s}` (expected `raw`, `libxdp`, or `libxdp:<priority>`)"
        )),
    }
}

#[test]
fn agrees_with_the_standard_library() {
    let priorities = [
        "", "+", "-", "++1", "+-1", "-0", "-1", "+0", "+5", "5+", "0", "00", "007", "1_000", "0x10",
        "12a", "a12", "4294967295", "+4294967295", "4294967296", "04294967295", "4294967296x",
        "42949672960", "429496729x", "9999999999", "9999999999x", "999999999x9999",
        "00000000000000000000000001", "99999999999999999999999999", "99999999999999999999999999x",
        "\u{0663}", "1\u{e9}", "1 2", " 1", "1 ", "\u{1d7d9}",
    ];
    for p in priorities {
        for around in ["", " ", "\u{a0}\t"] {
            for head in ["libxdp:", "libxdp=", "libxdp", "libxdp::", "raw", "", "Libxdp:"] {
                let s = format!("{around}{head}{p}{around}");
                assert_eq!(XdpAttachMode::parse_cli(&s), read_with_std(&s), "{s:?}");
            }
        }
    }
}
