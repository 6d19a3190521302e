//! The platforms that a client can present itself as.
use vstd::prelude::*;
use vstd::string::*;
use vstd::utf8::*;
use crate::text::same_text;

verus! {

/// The end of every client's user agent.
pub const UA_SUFFIX: &'static str = " Chrome/140.0.7339.41 Electron/38.0.0 Safari/537.36";

/// An operating system.
#[allow(non_camel_case_types)]
#[derive(Debug, Clone, Copy, PartialEq, Eq, Structural)]
pub enum PlatformType {
    Windows,
    macOS,
    Linux,
}

/// The system of a name, where it is the name of one.
pub open spec fn named(s: Seq<char>) -> Option<PlatformType> {
    if s == "Windows"@ {
        Some(PlatformType::Windows)
    } else if s == "macOS"@ {
        Some(PlatformType::macOS)
    } else if s == "Linux"@ {
        Some(PlatformType::Linux)
    } else {
        None
    }
}

impl PlatformType {
    /// The name of the system.
    pub open spec fn name(self) -> Seq<char> {
        match self {
            PlatformType::Windows => "Windows"@,
            PlatformType::macOS => "macOS"@,
            PlatformType::Linux => "Linux"@,
        }
    }

    /// What a client on this system says of itself.
    pub open spec fn platform(self) -> Platform {
        match self {
            PlatformType::Windows => shared_platforms().windows,
            PlatformType::macOS => shared_platforms().macos,
            PlatformType::Linux => shared_platforms().linux,
        }
    }

    /// The name of the system.
    pub fn as_str(self) -> (r: &'static str)
        ensures
            r@ == self.name(),
    {
        match self {
            PlatformType::Windows => "Windows",
            PlatformType::macOS => "macOS",
            PlatformType::Linux => "Linux",
        }
    }

    /// The system of a name. Upper and lower case differ.
    pub fn from_str(s: &str) -> (r: Option<PlatformType>)
        ensures
            r == named(s@),
    {
        if same_text(s, "Windows") {
            Some(PlatformType::Windows)
        } else if same_text(s, "macOS") {
            Some(PlatformType::macOS)
        } else if same_text(s, "Linux") {
            Some(PlatformType::Linux)
        } else {
            None
        }
    }

    /// What a client on this system says of itself.
    pub fn as_platform(self) -> (r: &'static Platform)
        ensures
            *r == self.platform(),
            r.presentable(),
    {
        let all = platforms();
        match self {
            PlatformType::Windows => &all.windows,
            PlatformType::macOS => &all.macos,
            PlatformType::Linux => &all.linux,
        }
    }
}

/// One [`Platform`] for each system.
pub struct Platforms {
    pub windows: Platform,
    pub macos: Platform,
    pub linux: Platform,
}

/// What a client says of itself.
pub struct Platform {
    /// The user agent of a browser.
    pub web_ua: &'static str,
    /// The name of the system in quotation marks.
    pub string: &'static str,
    /// The start of a client's user agent, up to its version.
    pub ua_prefix: &'static str,
}

/// The platforms that are shared by the whole program.
pub open spec fn shared_platforms() -> Platforms {
    Platforms {
        windows: Platform {
            web_ua: "Mozilla/5.0 (Windows NT 10.0; Win64; x64) AppleWebKit/537.36 (KHTML, like Gecko) Chrome/145.0.0.0 Safari/537.36",
            string: "\"Windows\"",
            ua_prefix: "Mozilla/5.0 (Windows NT 10.0; Win64; x64) AppleWebKit/537.36 (KHTML, like Gecko) Cursor/",
        },
        macos: Platform {
            web_ua: "Mozilla/5.0 (Macintosh; Intel Mac OS X 10_15_7) AppleWebKit/537.36 (KHTML, like Gecko) Chrome/145.0.0.0 Safari/537.36",
            string: "\"macOS\"",
            ua_prefix: "Mozilla/5.0 (Macintosh; Intel Mac OS X 10_15_7) AppleWebKit/537.36 (KHTML, like Gecko) Cursor/",
        },
        linux: Platform {
            web_ua: "Mozilla/5.0 (X11; Linux x86_64) AppleWebKit/537.36 (KHTML, like Gecko) Chrome/145.0.0.0 Safari/537.36",
            string: "\"Linux\"",
            ua_prefix: "Mozilla/5.0 (X11; Linux x86_64) AppleWebKit/537.36 (KHTML, like Gecko) Cursor/",
        },
    }
}

/// The platforms that are shared by the whole program.
fn platforms() -> (r: &'static Platforms)
    ensures
        *r == shared_platforms(),
        r.windows.presentable(),
        r.macos.presentable(),
        r.linux.presentable(),
{
    proof {
        shared_platforms_presentable();
    }
    &Platforms {
        windows: Platform {
            web_ua: "Mozilla/5.0 (Windows NT 10.0; Win64; x64) AppleWebKit/537.36 (KHTML, like Gecko) Chrome/145.0.0.0 Safari/537.36",
            string: "\"Windows\"",
            ua_prefix: "Mozilla/5.0 (Windows NT 10.0; Win64; x64) AppleWebKit/537.36 (KHTML, like Gecko) Cursor/",
        },
        macos: Platform {
            web_ua: "Mozilla/5.0 (Macintosh; Intel Mac OS X 10_15_7) AppleWebKit/537.36 (KHTML, like Gecko) Chrome/145.0.0.0 Safari/537.36",
            string: "\"macOS\"",
            ua_prefix: "Mozilla/5.0 (Macintosh; Intel Mac OS X 10_15_7) AppleWebKit/537.36 (KHTML, like Gecko) Cursor/",
        },
        linux: Platform {
            web_ua: "Mozilla/5.0 (X11; Linux x86_64) AppleWebKit/537.36 (KHTML, like Gecko) Chrome/145.0.0.0 Safari/537.36",
            string: "\"Linux\"",
            ua_prefix: "Mozilla/5.0 (X11; Linux x86_64) AppleWebKit/537.36 (KHTML, like Gecko) Cursor/",
        },
    }
}

/// A header value as `http` holds it.
#[verifier::external_type_specification]
#[verifier::external_body]
pub struct ExHeaderValue(http::HeaderValue);

/// The bytes that a header value holds.
pub uninterp spec fn header_bytes(value: http::HeaderValue) -> Seq<u8>;

/// Whether a header value may be made of a text with this byte in it: one that prints, a
/// space or a tab.
pub open spec fn visible_byte(b: u8) -> bool {
    32 <= b < 127 || b == 9
}

/// `http::HeaderValue::from_static`: the header value holds the bytes of the text. A text with
/// a byte that is not visible makes it panic, and is left out.
pub assume_specification[ http::HeaderValue::from_static ](src: &'static str) -> (r:
    http::HeaderValue)
    requires
        forall|i: int| 0 <= i < src.spec_bytes().len() ==> visible_byte(#[trigger] src.spec_bytes()[i]),
    ensures
        header_bytes(r) == src.spec_bytes(),
;

/// Whether a header value may be made of a text.
pub open spec fn visible_text(s: Seq<char>) -> bool {
    forall|i: int| 0 <= i < s.len() ==> 32 <= #[trigger] s[i] < 127 || s[i] == '\t'
}

/// The bytes of a text that a header value may be made of are visible.
proof fn visible_text_bytes(s: &str)
    requires
        visible_text(s@),
    ensures
        forall|i: int| 0 <= i < s.spec_bytes().len() ==> visible_byte(#[trigger] s.spec_bytes()[i]),
{
    is_ascii_chars_encode_utf8(s@);
}

impl Platform {
    /// Whether header values may be made of its texts.
    pub open spec fn presentable(self) -> bool {
        visible_text(self.web_ua@) && visible_text(self.string@)
    }

    /// The user agent of a client of this version.
    pub open spec fn user_agent(self, version: Seq<char>) -> Seq<char> {
        self.ua_prefix@ + version + UA_SUFFIX@
    }

    /// The user agent of a browser, as a header value.
    pub fn web_ua(&self) -> (r: http::HeaderValue)
        requires
            visible_text(self.web_ua@),
        ensures
            header_bytes(r) == self.web_ua.spec_bytes(),
    {
        proof {
            visible_text_bytes(self.web_ua);
        }
        http::HeaderValue::from_static(self.web_ua)
    }

    /// The name of the system in quotation marks, as a header value.
    pub fn as_header_value(&self) -> (r: http::HeaderValue)
        requires
            visible_text(self.string@),
        ensures
            header_bytes(r) == self.string.spec_bytes(),
    {
        proof {
            visible_text_bytes(self.string);
        }
        http::HeaderValue::from_static(self.string)
    }

    /// The start of a client's user agent.
    pub fn ua_prefix(&self) -> (r: &'static str)
        ensures
            r == self.ua_prefix,
    {
        self.ua_prefix
    }

    /// The user agent of a client of this version.
    pub fn client_ua(&self, version: &str) -> (r: String)
        ensures
            r@ == self.user_agent(version@),
    {
        let mut out = self.ua_prefix().to_owned();
        out.append(version);
        out.append(UA_SUFFIX);
        out
    }
}

/// The platform to present, where the configuration emulates this system.
pub fn current(emulated: PlatformType) -> (r: &'static Platform)
    ensures
        *r == emulated.platform(),
        r.presentable(),
{
    emulated.as_platform()
}

/// Whether the first `n` characters are visible.
spec fn visible_head(s: Seq<char>, n: nat) -> bool
    decreases n,
{
    n == 0 || (32 <= s[n - 1] < 127 && visible_head(s, (n - 1) as nat))
}

proof fn visible_head_covers(s: Seq<char>, n: nat)
    requires
        visible_head(s, n),
        n <= s.len(),
    ensures
        forall|i: int| 0 <= i < n ==> 32 <= #[trigger] s[i] < 127,
    decreases n,
{
    if n > 0 {
        visible_head_covers(s, (n - 1) as nat);
    }
}

proof fn shared_platforms_presentable()
    ensures
        shared_platforms().windows.presentable(),
        shared_platforms().macos.presentable(),
        shared_platforms().linux.presentable(),
{
    reveal_with_fuel(visible_head, 21);
    reveal_strlit("Mozilla/5.0 (Windows NT 10.0; Win64; x64) AppleWebKit/537.36 (KHTML, like Gecko) Chrome/145.0.0.0 Safari/537.36");
    let windows = shared_platforms().windows.web_ua@;
    assert(windows.len() == 111);
    assert(visible_head(windows, 20));
    assert(visible_head(windows, 40));
    assert(visible_head(windows, 60));
    assert(visible_head(windows, 80));
    assert(visible_head(windows, 100));
    assert(visible_head(windows, 111));
    visible_head_covers(windows, 111);
    reveal_strlit("Mozilla/5.0 (Macintosh; Intel Mac OS X 10_15_7) AppleWebKit/537.36 (KHTML, like Gecko) Chrome/145.0.0.0 Safari/537.36");
    let macos = shared_platforms().macos.web_ua@;
    assert(macos.len() == 117);
    assert(visible_head(macos, 20));
    assert(visible_head(macos, 40));
    assert(visible_head(macos, 60));
    assert(visible_head(macos, 80));
    assert(visible_head(macos, 100));
    assert(visible_head(macos, 117));
    visible_head_covers(macos, 117);
    reveal_strlit("Mozilla/5.0 (X11; Linux x86_64) AppleWebKit/537.36 (KHTML, like Gecko) Chrome/145.0.0.0 Safari/537.36");
    let linux = shared_platforms().linux.web_ua@;
    assert(linux.len() == 101);
    assert(visible_head(linux, 20));
    assert(visible_head(linux, 40));
    assert(visible_head(linux, 60));
    assert(visible_head(linux, 80));
    assert(visible_head(linux, 100));
    assert(visible_head(linux, 101));
    visible_head_covers(linux, 101);
    reveal_strlit("\"Windows\"");
    visible_head_covers(shared_platforms().windows.string@, 9);
    reveal_strlit("\"macOS\"");
    visible_head_covers(shared_platforms().macos.string@, 7);
    reveal_strlit("\"Linux\"");
    visible_head_covers(shared_platforms().linux.string@, 7);
}

/// Each system is found again by its name, and only by that: a name that is read is the name
/// that is written.
pub proof fn law_names_round_trip(p: PlatformType, s: Seq<char>)
    ensures
        named(p.name()) == Some(p),
        named(s) == Some(p) ==> s == p.name(),
{
    reveal_strlit("Windows");
    reveal_strlit("macOS");
    reveal_strlit("Linux");
    assert("Windows"@.len() == 7);
    assert("macOS"@[0] != "Linux"@[0]);
    assert("macOS"@.len() == 5);
}

/// The header value of every platform is the name of its system in quotation marks.
pub proof fn law_header_text_is_quoted_name(p: PlatformType)
    ensures
        p.platform().string@ == seq!['"'] + p.name() + seq!['"'],
{
    reveal_strlit("Windows");
    reveal_strlit("macOS");
    reveal_strlit("Linux");
    reveal_strlit("\"Windows\"");
    reveal_strlit("\"macOS\"");
    reveal_strlit("\"Linux\"");
    assert(p.platform().string@ =~= seq!['"'] + p.name() + seq!['"']);
}

} // verus!
