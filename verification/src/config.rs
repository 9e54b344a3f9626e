//! The persisted client configuration and its generic accessor.

use vstd::prelude::*;

use crate::error::ConfigError;
use crate::format::ConfigData;
use crate::format::bool_word;
use crate::format::render_data;
use crate::masked::MaskedString;
use crate::numbers::chars_to_u64;
use crate::numbers::dec_digits;
use crate::numbers::dec_opt;
use crate::numbers::lemma_dec_round_trip;
use crate::numbers::u64_to_chars;
use crate::platform::Platform;
use crate::platform::platform_of_word;
use crate::platform::platform_word;
use crate::strutil::opt_str_view;
use crate::strutil::str_eq;
use crate::strutil::str_to_chars;
use crate::strutil::chars_to_string;
use crate::transport::TlsConfig;
use crate::transport::TransportConfig;

verus! {

/// Invocation options of the client process. The configuration store keeps
/// them together with the persisted state; they are never written to disk.
#[derive(Debug, PartialEq, Eq, Clone, Default)]
pub struct ClientOpts {
    pub gui: bool,
    pub credentials: Option<(String, String)>,
    pub transient: bool,
    pub secondary: bool,
}

/// The recognized keys of the generic accessor, as a closed set.
#[derive(Clone, Copy, PartialEq, Eq, Structural, Debug)]
pub enum ConfigKey {
    Server,
    Token,
    HeartbeatTimeout,
    OneCHome,
    OneCPlatform,
    OneCPublishDir,
    UnsafeTls,
    MinecraftServer,
    MinecraftJavaOpts,
    MinimizeToTrayOnClose,
}

/// The key a string denotes, if it is recognized.
pub open spec fn key_of(s: Seq<char>) -> Option<ConfigKey> {
    if s == "server"@ {
        Some(ConfigKey::Server)
    } else if s == "token"@ {
        Some(ConfigKey::Token)
    } else if s == "heartbeat_timeout"@ {
        Some(ConfigKey::HeartbeatTimeout)
    } else if s == "1c_home"@ {
        Some(ConfigKey::OneCHome)
    } else if s == "1c_platform"@ {
        Some(ConfigKey::OneCPlatform)
    } else if s == "1c_publish_dir"@ {
        Some(ConfigKey::OneCPublishDir)
    } else if s == "unsafe_tls"@ {
        Some(ConfigKey::UnsafeTls)
    } else if s == "minecraft_server"@ {
        Some(ConfigKey::MinecraftServer)
    } else if s == "minecraft_java_opts"@ {
        Some(ConfigKey::MinecraftJavaOpts)
    } else if s == "minimize_to_tray_on_close"@ {
        Some(ConfigKey::MinimizeToTrayOnClose)
    } else {
        None
    }
}

/// Recognizes a key string.
pub fn key_of_str(s: &str) -> (r: Option<ConfigKey>)
    ensures
        r == key_of(s@),
{
    if str_eq(s, "server") {
        Some(ConfigKey::Server)
    } else if str_eq(s, "token") {
        Some(ConfigKey::Token)
    } else if str_eq(s, "heartbeat_timeout") {
        Some(ConfigKey::HeartbeatTimeout)
    } else if str_eq(s, "1c_home") {
        Some(ConfigKey::OneCHome)
    } else if str_eq(s, "1c_platform") {
        Some(ConfigKey::OneCPlatform)
    } else if str_eq(s, "1c_publish_dir") {
        Some(ConfigKey::OneCPublishDir)
    } else if str_eq(s, "unsafe_tls") {
        Some(ConfigKey::UnsafeTls)
    } else if str_eq(s, "minecraft_server") {
        Some(ConfigKey::MinecraftServer)
    } else if str_eq(s, "minecraft_java_opts") {
        Some(ConfigKey::MinecraftJavaOpts)
    } else if str_eq(s, "minimize_to_tray_on_close") {
        Some(ConfigKey::MinimizeToTrayOnClose)
    } else {
        None
    }
}

/// What a string parses to as a URL, in the url crate's normalized
/// serialization; nothing when it does not parse. Named here because the
/// full parsing rules are beyond restating; it depends on the string alone.
pub uninterp spec fn url_normalized(s: Seq<char>) -> Option<Seq<char>>;

/// Relies on `url::Url::parse` and `Url::to_string` (the `Display` form,
/// which is the URL's serialization): whether a string parses, and the
/// serialization of what it parses to, depend on the string alone. The
/// crate maintains the invariant that parsing a URL's own serialization
/// yields the same URL again, with the same serialization.
#[verifier::external_body]
fn parse_url(s: &str) -> (r: Option<String>)
    ensures
        r matches Some(t) ==> url_normalized(s@) == Some(t@) && url_normalized(t@) == Some(t@),
        r is None ==> url_normalized(s@) is None,
{
    match url::Url::parse(s) {
        Ok(u) => Some(u.to_string()),
        Err(_) => None,
    }
}

/// Relies on `uuid::Uuid::new_v4` and its `Display` form: a fresh random
/// identifier renders as the 36-character hyphenated form. Nothing more is
/// promised of the drawn value.
#[verifier::external_body]
fn new_agent_id() -> (r: String)
    ensures
        r@.len() == 36,
{
    uuid::Uuid::new_v4().to_string()
}

/// The persisted client configuration, together with its non-persisted
/// location and read-only flag.
#[derive(Clone, PartialEq, Eq)]
pub struct ClientConfig {
    /// The resolved on-disk location backing this instance; not persisted.
    pub config_path: String,
    pub readonly: bool,
    pub agent_id: String,
    pub hwid: Option<String>,
    /// The control endpoint, kept in the URL's normalized serialization.
    pub server: String,
    pub token: Option<MaskedString>,
    pub heartbeat_timeout: u64,
    pub one_c_home: Option<String>,
    pub one_c_platform: Option<Platform>,
    pub one_c_publish_dir: Option<String>,
    pub minecraft_server: Option<String>,
    pub minecraft_java_opts: Option<String>,
    pub minimize_to_tray_on_close: Option<bool>,
    pub transport: TransportConfig,
}

impl ClientConfig {
    /// The persisted content as a mathematical record.
    pub open spec fn data(&self) -> ConfigData {
        ConfigData {
            agent_id: self.agent_id@,
            hwid: opt_str_view(self.hwid),
            server: self.server@,
            token: match self.token {
                Some(m) => Some(m.plain()),
                None => None,
            },
            heartbeat_timeout: self.heartbeat_timeout,
            one_c_home: opt_str_view(self.one_c_home),
            one_c_platform: self.one_c_platform,
            one_c_publish_dir: opt_str_view(self.one_c_publish_dir),
            minecraft_server: opt_str_view(self.minecraft_server),
            minecraft_java_opts: opt_str_view(self.minecraft_java_opts),
            minimize_to_tray_on_close: self.minimize_to_tray_on_close,
            tls: self.transport.tls_state(),
        }
    }

    /// The resolved on-disk location backing this instance.
    pub open spec fn path_spec(&self) -> Seq<char> {
        self.config_path@
    }

    /// The path this instance was loaded from.
    pub fn get_config_path(&self) -> (r: &String)
        ensures
            r@ == self.path_spec(),
    {
        &self.config_path
    }

    /// Sets the non-persisted location attributes, once, at load time.
    pub fn set_location(&mut self, config_path: String, readonly: bool)
        ensures
            final(self).path_spec() == config_path@,
            final(self).readonly == readonly,
            final(self).data() == old(self).data(),
    {
        self.config_path = config_path;
        self.readonly = readonly;
    }

    /// Checks the configuration for use: fails exactly when the credential
    /// token is absent; otherwise the transport section is validated in
    /// non-strict mode and its outcome is returned.
    pub fn validate(&self) -> (r: Result<(), ConfigError>)
        ensures
            r is Ok <==> self.token is Some,
            r matches Err(e) ==> e == ConfigError::AuthMissing,
    {
        match &self.token {
            None => Err(ConfigError::AuthMissing),
            Some(_) => self.transport.validate(false),
        }
    }

    /// The directory that holds the configuration file: the per-user
    /// configuration root (as the host reports it) with the application
    /// directory appended when user-scoped, else a fixed system path of the
    /// host's path conventions. Creating the directory is the caller's work.
    pub fn get_config_dir(user_config_root: Option<&String>, user_dir: bool, unix_family: bool) -> (r:
        Result<String, ConfigError>)
        ensures
            match r {
                Ok(p) => user_dir ==> (user_config_root matches Some(rt) && p@ == rt@ + (
                if unix_family {
                    "/cloudpub"@
                } else {
                    "\\cloudpub"@
                })),
                Err(e) => e matches ConfigError::Io(_),
            },
            !user_dir && unix_family ==> (r matches Ok(p) && p@ == "./etc/cloudpub"@),
            !user_dir && !unix_family ==> (r matches Ok(p) && p@
                == "C:\\Windows\\system32\\config\\systemprofile\\AppData\\Local\\cloudpub"@),
            user_dir ==> (r is Ok <==> user_config_root is Some),
    {
        if user_dir {
            match user_config_root {
                Some(rt) => {
                    let base = rt.clone();
                    if unix_family {
                        Ok(base.concat("/cloudpub"))
                    } else {
                        Ok(base.concat("\\cloudpub"))
                    }
                },
                None => Err(ConfigError::Io(String::from_str("Can't get config_dir"))),
            }
        } else if unix_family {
            Ok(String::from_str("./etc/cloudpub"))
        } else {
            Ok(
                String::from_str(
                    "C:\\Windows\\system32\\config\\systemprofile\\AppData\\Local\\cloudpub",
                ),
            )
        }
    }
}

impl Default for ClientConfig {
    /// A fresh configuration: a new random agent identity, the built-in
    /// control endpoint, the default heartbeat threshold, no credentials,
    /// and tray minimization on.
    fn default() -> (r: Self)
        ensures
            r.agent_id@.len() == 36,
            r.hwid is None,
            r.server@ == "https://cloudpub.ru/"@,
            r.token is None,
            r.heartbeat_timeout == crate::constants::DEFAULT_HEARTBEAT_TIMEOUT_SECS,
            r.one_c_home is None,
            r.one_c_platform is None,
            r.one_c_publish_dir is None,
            r.minecraft_server is None,
            r.minecraft_java_opts is None,
            r.minimize_to_tray_on_close == Some(true),
            r.transport.tls is None,
            r.path_spec() == Seq::<char>::empty(),
            r.readonly == false,
    {
        ClientConfig {
            config_path: String::new(),
            readonly: false,
            agent_id: new_agent_id(),
            hwid: None,
            server: String::from_str("https://cloudpub.ru/"),
            token: None,
            heartbeat_timeout: crate::constants::DEFAULT_HEARTBEAT_TIMEOUT_SECS,
            one_c_home: None,
            one_c_platform: None,
            one_c_publish_dir: None,
            minecraft_server: None,
            minecraft_java_opts: None,
            minimize_to_tray_on_close: Some(true),
            transport: TransportConfig { tls: None },
        }
    }
}


impl ClientConfig {
    /// Renders the persisted fields as the configuration document.
    pub fn render(&self) -> (r: String)
        ensures
            r@ == render_data(self.data()),
    {
        let mut out: Vec<char> = Vec::new();
        crate::format::push_qline(&mut out, "agent_id", self.agent_id.as_str());
        crate::format::push_ostr_line(&mut out, "hwid", &self.hwid);
        crate::format::push_qline(&mut out, "server", self.server.as_str());
        match &self.token {
            Some(t) => {
                crate::format::push_qline(&mut out, "token", t.plaintext().as_str());
            },
            None => {
                crate::format::push_none_line(&mut out, "token");
            },
        }
        let hb = u64_to_chars(self.heartbeat_timeout);
        crate::format::push_wline_chars(&mut out, "heartbeat_timeout", &hb);
        crate::format::push_ostr_line(&mut out, "one_c_home", &self.one_c_home);
        match self.one_c_platform {
            None => crate::format::push_wline_str(&mut out, "one_c_platform", "none"),
            Some(p) => crate::format::push_wline_str(&mut out, "one_c_platform", p.as_str()),
        }
        crate::format::push_ostr_line(&mut out, "one_c_publish_dir", &self.one_c_publish_dir);
        crate::format::push_ostr_line(&mut out, "minecraft_server", &self.minecraft_server);
        crate::format::push_ostr_line(&mut out, "minecraft_java_opts", &self.minecraft_java_opts);
        match self.minimize_to_tray_on_close {
            None => crate::format::push_wline_str(&mut out, "minimize_to_tray_on_close", "none"),
            Some(true) => crate::format::push_wline_str(
                &mut out,
                "minimize_to_tray_on_close",
                "true",
            ),
            Some(false) => crate::format::push_wline_str(
                &mut out,
                "minimize_to_tray_on_close",
                "false",
            ),
        }
        match &self.transport.tls {
            None => crate::format::push_wline_str(&mut out, "transport_tls", "none"),
            Some(t) => match t.danger_ignore_certificate_verification {
                None => crate::format::push_wline_str(&mut out, "transport_tls", "default"),
                Some(true) => crate::format::push_wline_str(&mut out, "transport_tls", "true"),
                Some(false) => crate::format::push_wline_str(&mut out, "transport_tls", "false"),
            },
        }
        proof {
            let d = self.data();
            let l1 = crate::format::qline("agent_id"@, d.agent_id);
            let l2 = crate::format::ostr_line("hwid"@, d.hwid);
            let l3 = crate::format::qline("server"@, d.server);
            let l4 = crate::format::ostr_line("token"@, d.token);
            let l5 = crate::format::wline(
                "heartbeat_timeout"@,
                dec_digits(d.heartbeat_timeout as nat),
            );
            let l6 = crate::format::ostr_line("one_c_home"@, d.one_c_home);
            let l7 = crate::format::wline(
                "one_c_platform"@,
                crate::format::opt_platform_word(d.one_c_platform),
            );
            let l8 = crate::format::ostr_line("one_c_publish_dir"@, d.one_c_publish_dir);
            let l9 = crate::format::ostr_line("minecraft_server"@, d.minecraft_server);
            let l10 = crate::format::ostr_line("minecraft_java_opts"@, d.minecraft_java_opts);
            let l11 = crate::format::wline(
                "minimize_to_tray_on_close"@,
                crate::format::opt_bool_word(d.minimize_to_tray_on_close),
            );
            let l12 = crate::format::wline("transport_tls"@, crate::format::tls_word(d.tls));
            let t12 = l12;
            let t11 = l11 + t12;
            let t10 = l10 + t11;
            let t9 = l9 + t10;
            let t8 = l8 + t9;
            let t7 = l7 + t8;
            let t6 = l6 + t7;
            let t5 = l5 + t6;
            let t4 = l4 + t5;
            let t3 = l3 + t4;
            let t2 = l2 + t3;
            let t1 = l1 + t2;
            let a0 = Seq::<char>::empty();
            let a1 = a0 + l1;
            let a2 = a1 + l2;
            let a3 = a2 + l3;
            let a4 = a3 + l4;
            let a5 = a4 + l5;
            let a6 = a5 + l6;
            let a7 = a6 + l7;
            let a8 = a7 + l8;
            let a9 = a8 + l9;
            let a10 = a9 + l10;
            let a11 = a10 + l11;
            assert(out@ == a11 + l12);
            crate::format::lemma_add_assoc(a10, l11, t12);
            crate::format::lemma_add_assoc(a9, l10, t11);
            crate::format::lemma_add_assoc(a8, l9, t10);
            crate::format::lemma_add_assoc(a7, l8, t9);
            crate::format::lemma_add_assoc(a6, l7, t8);
            crate::format::lemma_add_assoc(a5, l6, t7);
            crate::format::lemma_add_assoc(a4, l5, t6);
            crate::format::lemma_add_assoc(a3, l4, t5);
            crate::format::lemma_add_assoc(a2, l3, t4);
            crate::format::lemma_add_assoc(a1, l2, t3);
            crate::format::lemma_add_assoc(a0, l1, t2);
            assert(a0 + t1 =~= t1);
            assert(out@ == render_data(d));
        }
        chars_to_string(&out)
    }

    /// What `save` writes: nothing in read-only mode (the skip is the
    /// caller's to log), otherwise the full rendered document, which the
    /// caller writes over the backing file in full and syncs.
    pub fn save_payload(&self) -> (r: Option<String>)
        ensures
            self.readonly ==> r is None,
            !self.readonly ==> (r matches Some(s) && s@ == render_data(self.data())),
    {
        if self.readonly {
            None
        } else {
            Some(self.render())
        }
    }

    /// Parses a configuration document. Succeeds exactly on documents with
    /// the twelve lines in order, every value well formed, and a server
    /// string that parses as a URL; the server is stored in its normalized
    /// serialization. The location attributes of the result are unset.
    pub fn parse_config(s: &str) -> (r: Result<ClientConfig, ConfigError>)
        ensures
            match r {
                Ok(c) => crate::format::parse_data(s@) matches Some(d) && url_normalized(d.server)
                    == Some(c.server@) && c.data() == (ConfigData { server: c.server@, ..d })
                    && c.path_spec() == Seq::<char>::empty() && c.readonly == false,
                Err(e) => e.is_parse() && (crate::format::parse_data(s@) is None || (
                crate::format::parse_data(s@) matches Some(d) && url_normalized(d.server) is None)),
            },
    {
        let cv = str_to_chars(s);
        proof {
            assert(cv@.skip(0) =~= s@);
        }
        let (agent_cs, i1) = match crate::format::parse_qline_at(&cv, 0, "agent_id") {
            None => {
                return Err(ConfigError::Parse(String::from_str("Configuration is invalid. Please refer to the configuration specification.")));
            },
            Some(p) => p,
        };
        let (hwid_cs, i2) = match crate::format::parse_ostr_line_at(&cv, i1, "hwid") {
            None => {
                return Err(ConfigError::Parse(String::from_str("Configuration is invalid. Please refer to the configuration specification.")));
            },
            Some(p) => p,
        };
        let (server_cs, i3) = match crate::format::parse_qline_at(&cv, i2, "server") {
            None => {
                return Err(ConfigError::Parse(String::from_str("Configuration is invalid. Please refer to the configuration specification.")));
            },
            Some(p) => p,
        };
        let (token_cs, i4) = match crate::format::parse_ostr_line_at(&cv, i3, "token") {
            None => {
                return Err(ConfigError::Parse(String::from_str("Configuration is invalid. Please refer to the configuration specification.")));
            },
            Some(p) => p,
        };
        let (hb_cs, i5) = match crate::format::parse_wline_at(&cv, i4, "heartbeat_timeout") {
            None => {
                return Err(ConfigError::Parse(String::from_str("Configuration is invalid. Please refer to the configuration specification.")));
            },
            Some(p) => p,
        };
        let hb = match chars_to_u64(&hb_cs) {
            None => {
                return Err(ConfigError::Parse(String::from_str("Configuration is invalid. Please refer to the configuration specification.")));
            },
            Some(n) => n,
        };
        let (home_cs, i6) = match crate::format::parse_ostr_line_at(&cv, i5, "one_c_home") {
            None => {
                return Err(ConfigError::Parse(String::from_str("Configuration is invalid. Please refer to the configuration specification.")));
            },
            Some(p) => p,
        };
        let (plat_cs, i7) = match crate::format::parse_wline_at(&cv, i6, "one_c_platform") {
            None => {
                return Err(ConfigError::Parse(String::from_str("Configuration is invalid. Please refer to the configuration specification.")));
            },
            Some(p) => p,
        };
        let plat = match crate::format::opt_platform_of_chars(&plat_cs) {
            None => {
                return Err(ConfigError::Parse(String::from_str("Configuration is invalid. Please refer to the configuration specification.")));
            },
            Some(p) => p,
        };
        let (pub_cs, i8) = match crate::format::parse_ostr_line_at(&cv, i7, "one_c_publish_dir") {
            None => {
                return Err(ConfigError::Parse(String::from_str("Configuration is invalid. Please refer to the configuration specification.")));
            },
            Some(p) => p,
        };
        let (mc_cs, i9) = match crate::format::parse_ostr_line_at(&cv, i8, "minecraft_server") {
            None => {
                return Err(ConfigError::Parse(String::from_str("Configuration is invalid. Please refer to the configuration specification.")));
            },
            Some(p) => p,
        };
        let (mj_cs, i10) = match crate::format::parse_ostr_line_at(&cv, i9, "minecraft_java_opts")
            {
            None => {
                return Err(ConfigError::Parse(String::from_str("Configuration is invalid. Please refer to the configuration specification.")));
            },
            Some(p) => p,
        };
        let (min_cs, i11) = match crate::format::parse_wline_at(
            &cv,
            i10,
            "minimize_to_tray_on_close",
        ) {
            None => {
                return Err(ConfigError::Parse(String::from_str("Configuration is invalid. Please refer to the configuration specification.")));
            },
            Some(p) => p,
        };
        let minimize = match crate::format::opt_bool_of_chars(&min_cs) {
            None => {
                return Err(ConfigError::Parse(String::from_str("Configuration is invalid. Please refer to the configuration specification.")));
            },
            Some(b) => b,
        };
        let (tls_cs, i12) = match crate::format::parse_wline_at(&cv, i11, "transport_tls") {
            None => {
                return Err(ConfigError::Parse(String::from_str("Configuration is invalid. Please refer to the configuration specification.")));
            },
            Some(p) => p,
        };
        let tls = match crate::format::tls_of_chars(&tls_cs) {
            None => {
                return Err(ConfigError::Parse(String::from_str("Configuration is invalid. Please refer to the configuration specification.")));
            },
            Some(t) => t,
        };
        if i12 != cv.len() {
            proof {
                assert(cv@.skip(i12 as int).len() != 0);
            }
            return Err(ConfigError::Parse(String::from_str("Configuration is invalid. Please refer to the configuration specification.")));
        }
        proof {
            assert(cv@.skip(i12 as int).len() == 0);
        }
        let server_raw = chars_to_string(&server_cs);
        let server = match parse_url(server_raw.as_str()) {
            None => {
                return Err(ConfigError::Parse(String::from_str("Invalid server URL")));
            },
            Some(u) => u,
        };
        let c = ClientConfig {
            config_path: String::new(),
            readonly: false,
            agent_id: chars_to_string(&agent_cs),
            hwid: match &hwid_cs {
                Some(v) => Some(chars_to_string(v)),
                None => None,
            },
            server,
            token: match &token_cs {
                Some(v) => Some(MaskedString::new(chars_to_string(v))),
                None => None,
            },
            heartbeat_timeout: hb,
            one_c_home: match &home_cs {
                Some(v) => Some(chars_to_string(v)),
                None => None,
            },
            one_c_platform: plat,
            one_c_publish_dir: match &pub_cs {
                Some(v) => Some(chars_to_string(v)),
                None => None,
            },
            minecraft_server: match &mc_cs {
                Some(v) => Some(chars_to_string(v)),
                None => None,
            },
            minecraft_java_opts: match &mj_cs {
                Some(v) => Some(chars_to_string(v)),
                None => None,
            },
            minimize_to_tray_on_close: minimize,
            transport: TransportConfig {
                tls: match tls {
                    None => None,
                    Some(ob) => Some(TlsConfig { danger_ignore_certificate_verification: ob }),
                },
            },
        };
        Ok(c)
    }
}


/// The state after a successful `set`, or nothing when the value is
/// rejected: per key, the exact coercion the accessor performs.
pub open spec fn set_view(d: ConfigData, k: ConfigKey, v: Seq<char>) -> Option<ConfigData> {
    match k {
        ConfigKey::Server => match url_normalized(v) {
            Some(u) => Some(ConfigData { server: u, ..d }),
            None => None,
        },
        ConfigKey::Token => Some(ConfigData { token: Some(v), ..d }),
        ConfigKey::HeartbeatTimeout => match dec_opt(v) {
            Some(n) => Some(ConfigData { heartbeat_timeout: n, ..d }),
            None => None,
        },
        ConfigKey::OneCHome => Some(
            ConfigData {
                one_c_home: if v.len() == 0 {
                    None
                } else {
                    Some(v)
                },
                ..d
            },
        ),
        ConfigKey::OneCPlatform => if v.len() == 0 {
            Some(ConfigData { one_c_platform: None, ..d })
        } else {
            match platform_of_word(v) {
                Some(p) => Some(ConfigData { one_c_platform: Some(p), ..d }),
                None => None,
            }
        },
        ConfigKey::OneCPublishDir => Some(
            ConfigData {
                one_c_publish_dir: if v.len() == 0 {
                    None
                } else {
                    Some(v)
                },
                ..d
            },
        ),
        ConfigKey::UnsafeTls => match crate::format::bool_of_word(v) {
            Some(b) => Some(ConfigData { tls: Some(Some(b)), ..d }),
            None => None,
        },
        ConfigKey::MinecraftServer => Some(
            ConfigData {
                minecraft_server: if v.len() == 0 {
                    None
                } else {
                    Some(v)
                },
                ..d
            },
        ),
        ConfigKey::MinecraftJavaOpts => Some(
            ConfigData {
                minecraft_java_opts: if v.len() == 0 {
                    None
                } else {
                    Some(v)
                },
                ..d
            },
        ),
        ConfigKey::MinimizeToTrayOnClose => match crate::format::bool_of_word(v) {
            Some(b) => Some(ConfigData { minimize_to_tray_on_close: Some(b), ..d }),
            None => None,
        },
    }
}

/// What `get` returns for each key: the textual rendering of the field,
/// with an absent optional rendered as the empty string and an absent
/// boolean as its default.
pub open spec fn get_spec(d: ConfigData, k: ConfigKey) -> Seq<char> {
    match k {
        ConfigKey::Server => d.server,
        ConfigKey::Token => match d.token {
            Some(t) => t,
            None => Seq::empty(),
        },
        ConfigKey::HeartbeatTimeout => dec_digits(d.heartbeat_timeout as nat),
        ConfigKey::OneCHome => match d.one_c_home {
            Some(v) => v,
            None => Seq::empty(),
        },
        ConfigKey::OneCPlatform => match d.one_c_platform {
            Some(p) => platform_word(p),
            None => Seq::empty(),
        },
        ConfigKey::OneCPublishDir => match d.one_c_publish_dir {
            Some(v) => v,
            None => Seq::empty(),
        },
        ConfigKey::UnsafeTls => match d.tls {
            Some(ob) => match ob {
                Some(b) => bool_word(b),
                None => Seq::empty(),
            },
            None => Seq::empty(),
        },
        ConfigKey::MinecraftServer => match d.minecraft_server {
            Some(v) => v,
            None => Seq::empty(),
        },
        ConfigKey::MinecraftJavaOpts => match d.minecraft_java_opts {
            Some(v) => v,
            None => Seq::empty(),
        },
        ConfigKey::MinimizeToTrayOnClose => match d.minimize_to_tray_on_close {
            Some(b) => bool_word(b),
            None => "false"@,
        },
    }
}

impl ClientConfig {
    /// Sets one field through the generic accessor. An unknown key fails
    /// before any mutation; a value the key's coercion rejects fails and
    /// leaves the state unchanged; on success the state is exactly
    /// `set_view` of the old state. Persisting the new state is the
    /// caller's step, through `save_payload`.
    pub fn set(&mut self, key: &str, value: &str) -> (r: Result<(), ConfigError>)
        ensures
            final(self).path_spec() == old(self).path_spec(),
            final(self).readonly == old(self).readonly,
            match key_of(key@) {
                None => r matches Err(e) && (e matches ConfigError::UnknownKey(kk) && kk@ == key@)
                    && *final(self) == *old(self),
                Some(k) => match set_view(old(self).data(), k, value@) {
                    Some(d2) => r is Ok && final(self).data() == d2,
                    None => r matches Err(e) && e.is_parse() && *final(self) == *old(self),
                },
            },
    {
        let k = match key_of_str(key) {
            None => {
                return Err(ConfigError::UnknownKey(String::from_str(key)));
            },
            Some(k) => k,
        };
        match k {
            ConfigKey::Server => match parse_url(value) {
                Some(u) => {
                    self.server = u;
                    Ok(())
                },
                None => Err(ConfigError::Parse(String::from_str("Invalid server URL"))),
            },
            ConfigKey::Token => {
                self.token = Some(MaskedString::from_str(value));
                Ok(())
            },
            ConfigKey::HeartbeatTimeout => {
                let cv = str_to_chars(value);
                match chars_to_u64(&cv) {
                    Some(n) => {
                        self.heartbeat_timeout = n;
                        Ok(())
                    },
                    None => Err(ConfigError::Parse(String::from_str("Invalid heartbeat_timeout"))),
                }
            },
            ConfigKey::OneCHome => {
                if value.is_empty() {
                    self.one_c_home = None;
                } else {
                    self.one_c_home = Some(String::from_str(value));
                }
                Ok(())
            },
            ConfigKey::OneCPlatform => {
                if value.is_empty() {
                    self.one_c_platform = None;
                    Ok(())
                } else {
                    match Platform::from_str(value) {
                        Ok(p) => {
                            self.one_c_platform = Some(p);
                            Ok(())
                        },
                        Err(e) => Err(e),
                    }
                }
            },
            ConfigKey::OneCPublishDir => {
                if value.is_empty() {
                    self.one_c_publish_dir = None;
                } else {
                    self.one_c_publish_dir = Some(String::from_str(value));
                }
                Ok(())
            },
            ConfigKey::UnsafeTls => match crate::format::bool_of_str(value) {
                Some(b) => {
                    self.transport.tls = Some(
                        TlsConfig { danger_ignore_certificate_verification: Some(b) },
                    );
                    Ok(())
                },
                None => Err(ConfigError::Parse(String::from_str("Invalid boolean value"))),
            },
            ConfigKey::MinecraftServer => {
                if value.is_empty() {
                    self.minecraft_server = None;
                } else {
                    self.minecraft_server = Some(String::from_str(value));
                }
                Ok(())
            },
            ConfigKey::MinecraftJavaOpts => {
                if value.is_empty() {
                    self.minecraft_java_opts = None;
                } else {
                    self.minecraft_java_opts = Some(String::from_str(value));
                }
                Ok(())
            },
            ConfigKey::MinimizeToTrayOnClose => match crate::format::bool_of_str(value) {
                Some(b) => {
                    self.minimize_to_tray_on_close = Some(b);
                    Ok(())
                },
                None => Err(ConfigError::Parse(String::from_str("Invalid boolean value"))),
            },
        }
    }

    /// Reads one field through the generic accessor: exactly `get_spec` of
    /// the current state for a recognized key, the unknown-key error
    /// otherwise, with no other outcome.
    pub fn get(&self, key: &str) -> (r: Result<String, ConfigError>)
        ensures
            match key_of(key@) {
                Some(k) => r matches Ok(s) && s@ == get_spec(self.data(), k),
                None => r matches Err(e) && (e matches ConfigError::UnknownKey(kk) && kk@
                    == key@),
            },
    {
        let k = match key_of_str(key) {
            None => {
                return Err(ConfigError::UnknownKey(String::from_str(key)));
            },
            Some(k) => k,
        };
        match k {
            ConfigKey::Server => Ok(self.server.clone()),
            ConfigKey::Token => match &self.token {
                Some(t) => Ok(t.plaintext().clone()),
                None => Ok(String::new()),
            },
            ConfigKey::HeartbeatTimeout => {
                let cs = u64_to_chars(self.heartbeat_timeout);
                Ok(chars_to_string(&cs))
            },
            ConfigKey::OneCHome => match &self.one_c_home {
                Some(v) => Ok(v.clone()),
                None => Ok(String::new()),
            },
            ConfigKey::OneCPlatform => match self.one_c_platform {
                Some(p) => Ok(String::from_str(p.as_str())),
                None => Ok(String::new()),
            },
            ConfigKey::OneCPublishDir => match &self.one_c_publish_dir {
                Some(v) => Ok(v.clone()),
                None => Ok(String::new()),
            },
            ConfigKey::UnsafeTls => match &self.transport.tls {
                Some(t) => match t.danger_ignore_certificate_verification {
                    Some(true) => Ok(String::from_str("true")),
                    Some(false) => Ok(String::from_str("false")),
                    None => Ok(String::new()),
                },
                None => Ok(String::new()),
            },
            ConfigKey::MinecraftServer => match &self.minecraft_server {
                Some(v) => Ok(v.clone()),
                None => Ok(String::new()),
            },
            ConfigKey::MinecraftJavaOpts => match &self.minecraft_java_opts {
                Some(v) => Ok(v.clone()),
                None => Ok(String::new()),
            },
            ConfigKey::MinimizeToTrayOnClose => match self.minimize_to_tray_on_close {
                Some(true) => Ok(String::from_str("true")),
                Some(false) => Ok(String::from_str("false")),
                None => Ok(String::from_str("false")),
            },
        }
    }
}

/// Law (persistence round trip): the document any configuration renders to
/// parses back to a record equal in every persisted field.
pub proof fn lemma_config_round_trip(c: ClientConfig)
    ensures
        crate::format::parse_data(render_data(c.data())) == Some(c.data()),
{
    crate::format::lemma_render_parse_round_trip(c.data());
}

/// Law (accessor symmetry): after a successful `set` of a recognized key,
/// `get` of that key returns a value denoting the same thing as the one
/// set. Plain string keys return the very string, with the empty string
/// standing for a cleared optional; the number, boolean and platform keys
/// return a spelling with the same meaning; the server key returns the
/// normalized serialization that the set value parsed to.
pub proof fn lemma_set_get_symmetry(d: ConfigData, k: ConfigKey, v: Seq<char>, d2: ConfigData)
    requires
        set_view(d, k, v) == Some(d2),
    ensures
        match k {
            ConfigKey::Server => url_normalized(v) == Some(get_spec(d2, k)),
            ConfigKey::Token => get_spec(d2, k) == v,
            ConfigKey::HeartbeatTimeout => dec_opt(get_spec(d2, k)) == dec_opt(v) && dec_opt(v)
                is Some,
            ConfigKey::OneCPlatform => if v.len() == 0 {
                get_spec(d2, k) == v
            } else {
                platform_of_word(get_spec(d2, k)) == platform_of_word(v) && platform_of_word(v)
                    is Some
            },
            ConfigKey::UnsafeTls | ConfigKey::MinimizeToTrayOnClose => crate::format::bool_of_word(
                get_spec(d2, k),
            ) == crate::format::bool_of_word(v) && crate::format::bool_of_word(v) is Some,
            ConfigKey::OneCHome | ConfigKey::OneCPublishDir | ConfigKey::MinecraftServer
                | ConfigKey::MinecraftJavaOpts => get_spec(d2, k) == v,
        },
{
    match k {
        ConfigKey::HeartbeatTimeout => {
            let n = dec_opt(v)->Some_0;
            lemma_dec_round_trip(n as nat);
        },
        ConfigKey::OneCPlatform => {
            if v.len() != 0 {
                let p = platform_of_word(v)->Some_0;
                crate::platform::lemma_platform_round_trip(p);
            }
        },
        ConfigKey::UnsafeTls | ConfigKey::MinimizeToTrayOnClose => {
            crate::format::lemma_words_distinct();
        },
        ConfigKey::OneCHome | ConfigKey::OneCPublishDir | ConfigKey::MinecraftServer
            | ConfigKey::MinecraftJavaOpts => {
            if v.len() == 0 {
                assert(get_spec(d2, k) =~= v);
            }
        },
        _ => {},
    }
}

} // verus!
