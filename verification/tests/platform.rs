use cli_backend::platform::{current, Platform, PlatformType, UA_SUFFIX};

const ALL: [PlatformType; 3] = [PlatformType::Windows, PlatformType::macOS, PlatformType::Linux];

#[test]
fn names_are_read_and_written() {
    assert_eq!(PlatformType::Windows.as_str(), "Windows");
    assert_eq!(PlatformType::macOS.as_str(), "macOS");
    assert_eq!(PlatformType::Linux.as_str(), "Linux");
    for p in ALL {
        assert_eq!(PlatformType::from_str(p.as_str()), Some(p));
    }
}

#[test]
fn other_names_are_refused() {
    for s in ["", "windows", "MacOS", "linux", "Linux ", "FreeBSD", "Windows\u{e9}"] {
        assert_eq!(PlatformType::from_str(s), None);
    }
}

#[test]
fn header_text_is_the_quoted_name() {
    for p in ALL {
        assert_eq!(p.as_platform().string, format!("\"{}\"", p.as_str()));
    }
}

#[test]
fn header_values_hold_the_texts() {
    for p in ALL {
        let platform = p.as_platform();
        let ua = platform.web_ua();
        assert_eq!(ua.as_bytes(), platform.web_ua.as_bytes());
        assert!(!ua.is_sensitive());
        assert_eq!(platform.as_header_value().as_bytes(), platform.string.as_bytes());
    }
    assert_eq!(PlatformType::macOS.as_platform().as_header_value().as_bytes(), b"\"macOS\"");
}

#[test]
fn web_user_agents() {
    assert_eq!(
        PlatformType::Windows.as_platform().web_ua().to_str().unwrap(),
        "Mozilla/5.0 (Windows NT 10.0; Win64; x64) AppleWebKit/537.36 (KHTML, like Gecko) Chrome/145.0.0.0 Safari/537.36"
    );
    assert_eq!(
        PlatformType::macOS.as_platform().web_ua().to_str().unwrap(),
        "Mozilla/5.0 (Macintosh; Intel Mac OS X 10_15_7) AppleWebKit/537.36 (KHTML, like Gecko) Chrome/145.0.0.0 Safari/537.36"
    );
    assert_eq!(
        PlatformType::Linux.as_platform().web_ua().to_str().unwrap(),
        "Mozilla/5.0 (X11; Linux x86_64) AppleWebKit/537.36 (KHTML, like Gecko) Chrome/145.0.0.0 Safari/537.36"
    );
}

#[test]
fn client_user_agents() {
    assert_eq!(
        current(PlatformType::Windows).client_ua("2.6.0"),
        "Mozilla/5.0 (Windows NT 10.0; Win64; x64) AppleWebKit/537.36 (KHTML, like Gecko) Cursor/2.6.0 Chrome/140.0.7339.41 Electron/38.0.0 Safari/537.36"
    );
    assert_eq!(
        current(PlatformType::macOS).client_ua("2.6.0"),
        "Mozilla/5.0 (Macintosh; Intel Mac OS X 10_15_7) AppleWebKit/537.36 (KHTML, like Gecko) Cursor/2.6.0 Chrome/140.0.7339.41 Electron/38.0.0 Safari/537.36"
    );
    assert_eq!(
        current(PlatformType::Linux).client_ua("2.6.0"),
        "Mozilla/5.0 (X11; Linux x86_64) AppleWebKit/537.36 (KHTML, like Gecko) Cursor/2.6.0 Chrome/140.0.7339.41 Electron/38.0.0 Safari/537.36"
    );
}

#[test]
fn user_agent_is_put_together() {
    let p = Platform { web_ua: "w", string: "s", ua_prefix: "pre/" };
    assert_eq!(p.ua_prefix(), "pre/");
    assert_eq!(p.client_ua(""), format!("pre/{UA_SUFFIX}"));
    assert_eq!(p.client_ua("\u{e9}"), format!("pre/\u{e9}{UA_SUFFIX}"));
}
