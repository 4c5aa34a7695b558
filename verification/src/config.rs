//! The settings of the gateway: where it listens, and the secret it shares with Airwallex.
use vstd::prelude::*;

verus! {

/// The webhook listener's host where none is set.
pub const DEFAULT_WEBHOOK_BIND_ADDR: &'static str = "127.0.0.1";

/// The webhook listener's port where none is set.
pub const DEFAULT_WEBHOOK_PORT: &'static str = "18081";

/// The gRPC server's port where none is set.
pub const DEFAULT_GATEWAY_SERVICE_PORT: &'static str = "20221";

/// An address and a port to listen on.
#[derive(Clone, Copy, Debug, PartialEq, Eq)]
pub enum SocketAddress {
    V4 { octets: [u8; 4], port: u16 },
    V6 { segments: [u16; 8], port: u16, flowinfo: u32, scope_id: u32 },
}

/// A setting, or the text that stands for it where it is not set.
pub open spec fn setting_or(setting: Option<String>, default: Seq<char>) -> Seq<char> {
    match setting {
        Some(text) => text@,
        None => default,
    }
}

/// A setting, or the text that stands for it where it is not set.
fn setting_or_default(setting: Option<String>, default: &str) -> (text: String)
    ensures
        text@ == setting_or(setting, default@),
        setting matches Some(given) ==> text@ == given@,
        setting is None ==> text@ == default@,
{
    match setting {
        Some(text) => text,
        None => default.to_owned(),
    }
}

/// The text of the webhook listener's address: host, colon, port.
pub fn webhook_bind_target(host: Option<String>, port: Option<String>) -> (target: String)
    ensures
        target@ == setting_or(host, "127.0.0.1"@) + ":"@ + setting_or(port, "18081"@),
        match (host, port) {
            (Some(host), Some(port)) => target@ == host@ + ":"@ + port@,
            (Some(host), None) => target@ == host@ + ":"@ + "18081"@,
            (None, Some(port)) => target@ == "127.0.0.1"@ + ":"@ + port@,
            (None, None) => target@ == "127.0.0.1"@ + ":"@ + "18081"@,
        },
{
    let host = setting_or_default(host, DEFAULT_WEBHOOK_BIND_ADDR);
    let port = setting_or_default(port, DEFAULT_WEBHOOK_PORT);
    host.concat(":").concat(port.as_str())
}

/// The text of the gRPC server's address: any interface, colon, port.
pub fn server_bind_target(port: Option<String>) -> (target: String)
    ensures
        target@ == "0.0.0.0:"@ + setting_or(port, "20221"@),
        match port {
            Some(port) => target@ == "0.0.0.0:"@ + port@,
            None => target@ == "0.0.0.0:"@ + "20221"@,
        },
{
    let port = setting_or_default(port, DEFAULT_GATEWAY_SERVICE_PORT);
    "0.0.0.0:".to_owned().concat(port.as_str())
}

/// Why the webhook receiver cannot be configured.
#[derive(Debug)]
pub enum ConfigError {
    MissingWebhookSecret,
    /// The bind address could not be parsed; the text says why.
    InvalidBindAddress(String),
}

impl ConfigError {
    /// The error in words.
    pub open spec fn words(self) -> Seq<char> {
        match self {
            ConfigError::MissingWebhookSecret => "AIRWALLEX_WEBHOOK_SECRET must be configured"@,
            ConfigError::InvalidBindAddress(detail) => "Invalid Airwallex webhook bind address: "@
                + detail@,
        }
    }

    /// Says what is wrong with the settings.
    pub fn message(&self) -> (text: String)
        ensures
            text@ == self.words(),
            match *self {
                ConfigError::MissingWebhookSecret => text@
                    == "AIRWALLEX_WEBHOOK_SECRET must be configured"@,
                ConfigError::InvalidBindAddress(detail) => text@
                    == "Invalid Airwallex webhook bind address: "@ + detail@,
            },
    {
        match self {
            ConfigError::MissingWebhookSecret =>
                "AIRWALLEX_WEBHOOK_SECRET must be configured".to_owned(),
            ConfigError::InvalidBindAddress(detail) =>
                "Invalid Airwallex webhook bind address: ".to_owned().concat(detail.as_str()),
        }
    }
}

/// Where the webhook receiver listens, and the secret that notifications are signed with.
pub struct AirwallexWebhookConfig {
    pub bind_address: SocketAddress,
    webhook_secret: String,
}

impl Clone for AirwallexWebhookConfig {
    fn clone(&self) -> (copy: Self)
        ensures
            copy == *self,
    {
        AirwallexWebhookConfig {
            bind_address: self.bind_address,
            webhook_secret: self.webhook_secret.clone(),
        }
    }
}

impl AirwallexWebhookConfig {
    /// The address to listen on.
    pub closed spec fn address(self) -> SocketAddress {
        self.bind_address
    }

    /// The shared secret.
    pub closed spec fn secret(self) -> Seq<char> {
        self.webhook_secret@
    }

    /// Takes the listener's address, or why it could not be parsed, and the secret, where it
    /// is set. A secret that is blank counts as missing; a bad address is reported first.
    pub fn from_settings(
        bind_address: Result<SocketAddress, String>,
        webhook_secret: Option<String>,
    ) -> (result: Result<Self, ConfigError>)
        ensures
            bind_address matches Err(detail) ==> result == Err::<Self, ConfigError>(
                ConfigError::InvalidBindAddress(detail),
            ),
            bind_address is Ok && (webhook_secret matches Some(secret) ==> crate::text::is_blank(
                secret@,
            )) ==> result == Err::<Self, ConfigError>(ConfigError::MissingWebhookSecret),
            bind_address matches Ok(address) ==> webhook_secret matches Some(secret)
                ==> !crate::text::is_blank(secret@) ==> (result matches Ok(config)
                && config.address() == address && config.secret() == secret@),
            result is Ok <==> bind_address is Ok && webhook_secret is Some && exists|i: int|
                0 <= i < webhook_secret->Some_0@.len() && !crate::text::is_white_space(
                    #[trigger] webhook_secret->Some_0@[i],
                ),
            result matches Ok(config) ==> !crate::text::is_blank(config.secret()),
    {
        let bind_address = match bind_address {
            Ok(address) => address,
            Err(detail) => {
                return Err(ConfigError::InvalidBindAddress(detail));
            },
        };
        let webhook_secret = match webhook_secret {
            Some(secret) => secret,
            None => {
                return Err(ConfigError::MissingWebhookSecret);
            },
        };
        proof {
            crate::text::lemma_blank_is_trimmed_away(webhook_secret@);
        }
        if webhook_secret.trim().is_empty() {
            return Err(ConfigError::MissingWebhookSecret);
        }
        Ok(AirwallexWebhookConfig { bind_address, webhook_secret })
    }

    /// The address to listen on.
    pub fn bind_address(&self) -> (address: SocketAddress)
        ensures
            address == self.address(),
    {
        self.bind_address
    }

    /// The shared secret.
    pub(crate) fn webhook_secret(&self) -> (secret: &str)
        ensures
            secret@ == self.secret(),
    {
        self.webhook_secret.as_str()
    }
}

} // verus!
