use vstd::prelude::*;

verus! {

/// The settings of the desktop shell, as kept in its configuration file.
#[derive(Debug, Clone)]
pub struct AlfredConfig {
    pub version: String,
    pub gateway: GatewayConfig,
    pub models: ModelsConfig,
    pub privacy: PrivacyConfig,
    pub channels: ChannelsConfig,
    pub ui: UiConfig,
}

/// Settings of the gateway process.
#[derive(Debug, Clone)]
pub struct GatewayConfig {
    pub port: u16,
    pub auto_start: bool,
}

/// Settings of the model daemon.
#[derive(Debug, Clone)]
pub struct ModelsConfig {
    pub default_model: String,
    pub ollama_host: String,
}

/// Privacy settings.
#[derive(Debug, Clone)]
pub struct PrivacyConfig {
    pub local_only: bool,
    pub redact_cloud: bool,
    pub audit_enabled: bool,
}

/// The messaging channels that are set up.
#[derive(Debug, Clone)]
pub struct ChannelsConfig {
    pub signal: Option<SignalConfig>,
    pub discord: Option<DiscordConfig>,
}

/// The Signal channel.
#[derive(Debug, Clone)]
pub struct SignalConfig {
    pub enabled: bool,
    pub phone_number: String,
}

/// The Discord channel.
#[derive(Debug, Clone)]
pub struct DiscordConfig {
    pub enabled: bool,
    pub bot_token: String,
}

/// Settings of the window and tray.
#[derive(Debug, Clone)]
pub struct UiConfig {
    pub theme: String,
    pub tray_on_close: bool,
    pub start_minimized: bool,
}

/// The configuration version written when the file gives none.
pub fn default_version() -> (r: String)
    ensures
        r@ == "3.0.0"@,
{
    "3.0.0".to_owned()
}

/// The gateway port used when the file gives none.
pub fn default_gateway_port() -> (r: u16)
    ensures
        r == 18789,
{
    18789
}

/// The value of the switches that are on unless the file says otherwise.
pub fn default_true() -> (r: bool)
    ensures
        r,
{
    true
}

/// The theme used when the file gives none.
pub fn default_theme() -> (r: String)
    ensures
        r@ == "dark"@,
{
    "dark".to_owned()
}

impl Default for GatewayConfig {
    fn default() -> (r: Self)
        ensures
            r.port == 0,
            !r.auto_start,
    {
        GatewayConfig { port: 0, auto_start: false }
    }
}

impl Default for ModelsConfig {
    fn default() -> (r: Self)
        ensures
            r.default_model@ == Seq::<char>::empty(),
            r.ollama_host@ == Seq::<char>::empty(),
    {
        ModelsConfig { default_model: String::new(), ollama_host: String::new() }
    }
}

impl Default for PrivacyConfig {
    fn default() -> (r: Self)
        ensures
            !r.local_only,
            !r.redact_cloud,
            !r.audit_enabled,
    {
        PrivacyConfig { local_only: false, redact_cloud: false, audit_enabled: false }
    }
}

impl Default for ChannelsConfig {
    fn default() -> (r: Self)
        ensures
            r.signal is None,
            r.discord is None,
    {
        ChannelsConfig { signal: None, discord: None }
    }
}

impl Default for UiConfig {
    fn default() -> (r: Self)
        ensures
            r.theme@ == Seq::<char>::empty(),
            !r.tray_on_close,
            !r.start_minimized,
    {
        UiConfig { theme: String::new(), tray_on_close: false, start_minimized: false }
    }
}

impl Default for AlfredConfig {
    /// The configuration used when no file exists: the default version, and
    /// each section with zero, empty and off values.
    fn default() -> (r: Self)
        ensures
            r.version@ == "3.0.0"@,
            r.gateway.port == 0 && !r.gateway.auto_start,
            r.models.default_model@ == Seq::<char>::empty(),
            r.models.ollama_host@ == Seq::<char>::empty(),
            !r.privacy.local_only && !r.privacy.redact_cloud && !r.privacy.audit_enabled,
            r.channels.signal is None && r.channels.discord is None,
            r.ui.theme@ == Seq::<char>::empty() && !r.ui.tray_on_close && !r.ui.start_minimized,
    {
        AlfredConfig {
            version: default_version(),
            gateway: GatewayConfig::default(),
            models: ModelsConfig::default(),
            privacy: PrivacyConfig::default(),
            channels: ChannelsConfig::default(),
            ui: UiConfig::default(),
        }
    }
}

} // verus!
