//! The configuration of the service and its defaults.

use crate::messaging::config::MessagingConfig;
use vstd::prelude::*;

verus! {

/// Everything the service is configured with.
#[derive(Debug, Default)]
pub struct Config {
    pub log_level: String,
    pub api_port: u16,
    pub api_listen_address: String,
    pub metrics_port: u16,
    pub metrics_listen_address: String,
    pub api_enable_auth: bool,
    pub enable_messaging_ingest: bool,
    pub auth: Auth,
    pub auth_jwks_url: Option<String>,
    pub cache_implementation: String,
    pub messaging: MessagingConfig,
    pub db: crate::db::Config,
}

/// Whose tokens the API accepts.
#[derive(Debug, Default)]
pub struct Auth {
    pub issuer: String,
    pub aud: String,
    pub oidc_url: String,
}

impl Clone for Auth {
    fn clone(&self) -> (copy: Auth)
        ensures
            copy == *self,
    {
        Auth { issuer: self.issuer.clone(), aud: self.aud.clone(), oidc_url: self.oidc_url.clone() }
    }
}

impl Clone for Config {
    fn clone(&self) -> (copy: Config)
        ensures
            copy == *self,
    {
        let auth_jwks_url = match &self.auth_jwks_url {
            Some(url) => Some(url.clone()),
            None => None,
        };
        Config {
            log_level: self.log_level.clone(),
            api_port: self.api_port,
            api_listen_address: self.api_listen_address.clone(),
            metrics_port: self.metrics_port,
            metrics_listen_address: self.metrics_listen_address.clone(),
            api_enable_auth: self.api_enable_auth,
            enable_messaging_ingest: self.enable_messaging_ingest,
            auth: self.auth.clone(),
            auth_jwks_url,
            cache_implementation: self.cache_implementation.clone(),
            messaging: self.messaging.clone(),
            db: self.db.clone(),
        }
    }
}

/// The value of a default: a text or a number.
#[derive(Debug)]
pub enum Setting {
    Text(String),
    Number(i64),
}

/// The content of a [`Setting`].
pub ghost enum SettingView {
    Text(Seq<char>),
    Number(i64),
}

impl View for Setting {
    type V = SettingView;

    open spec fn view(&self) -> SettingView {
        match self {
            Setting::Text(text) => SettingView::Text(text@),
            Setting::Number(number) => SettingView::Number(*number),
        }
    }
}

/// The defaults of the configuration: each key, with `.` between the levels,
/// and the value it has where neither a variable of the process nor the file sets it.
/// The database and the JWKS address have no default.
pub open spec fn default_settings() -> Seq<(Seq<char>, SettingView)> {
    seq![
        ("auth.issuer"@, SettingView::Text(""@)),
        ("auth.aud"@, SettingView::Text(""@)),
        ("auth.oidc_url"@, SettingView::Text(""@)),
        ("api_port"@, SettingView::Number(8080)),
        ("api_listen_address"@, SettingView::Text("0.0.0.0"@)),
        ("metrics_port"@, SettingView::Number(9000)),
        ("metrics_listen_address"@, SettingView::Text("0.0.0.0"@)),
        ("log_level"@, SettingView::Text("info"@)),
        ("api_enable_auth"@, SettingView::Text("true"@)),
        ("enable_messaging_ingest"@, SettingView::Text("true"@)),
        ("cache_implementation"@, SettingView::Text("inmemory"@)),
        ("messaging.group_id"@, SettingView::Text("ssu-mgmt"@)),
        ("messaging.bootstrap_servers"@, SettingView::Text(""@)),
        ("messaging.sasl_mechanism"@, SettingView::Text("GSSAPI"@)),
        ("messaging.security_protocol"@, SettingView::Text("PLAINTEXT"@)),
        ("messaging.credentials.username"@, SettingView::Text(""@)),
        ("messaging.credentials.password"@, SettingView::Text(""@)),
    ]
}

/// The content of each default.
pub open spec fn setting_views(settings: Seq<(String, Setting)>) -> Seq<(Seq<char>, SettingView)> {
    settings.map_values(|s: (String, Setting)| (s.0@, s.1@))
}

fn text(key: &str, value: &str) -> (setting: (String, Setting))
    ensures
        setting.0@ == key@,
        setting.1@ == SettingView::Text(value@),
{
    (key.to_owned(), Setting::Text(value.to_owned()))
}

fn number(key: &str, value: i64) -> (setting: (String, Setting))
    ensures
        setting.0@ == key@,
        setting.1@ == SettingView::Number(value),
{
    (key.to_owned(), Setting::Number(value))
}

/// The defaults of the configuration, in the order in which they are set.
pub fn set_defaults() -> (settings: Vec<(String, Setting)>)
    ensures
        setting_views(settings@) == default_settings(),
{
    let mut settings: Vec<(String, Setting)> = Vec::new();
    settings.push(text("auth.issuer", ""));
    settings.push(text("auth.aud", ""));
    settings.push(text("auth.oidc_url", ""));
    settings.push(number("api_port", 8080));
    settings.push(text("api_listen_address", "0.0.0.0"));
    settings.push(number("metrics_port", 9000));
    settings.push(text("metrics_listen_address", "0.0.0.0"));
    settings.push(text("log_level", "info"));
    settings.push(text("api_enable_auth", "true"));
    settings.push(text("enable_messaging_ingest", "true"));
    settings.push(text("cache_implementation", "inmemory"));
    settings.push(text("messaging.group_id", "ssu-mgmt"));
    settings.push(text("messaging.bootstrap_servers", ""));
    settings.push(text("messaging.sasl_mechanism", "GSSAPI"));
    settings.push(text("messaging.security_protocol", "PLAINTEXT"));
    settings.push(text("messaging.credentials.username", ""));
    settings.push(text("messaging.credentials.password", ""));
    assert(setting_views(settings@) =~= default_settings());
    settings
}

} // verus!
