//! Konfiguration des Dienstes. Gelesen wird sie im Programm (TOML-Datei
//! plus Umgebungsvariablen mit Präfix `HAG_SCHENK_PULL__`); die Werte
//! selbst sind hier als schlichte Daten abgelegt.
use vstd::prelude::*;

verus! {

#[derive(Debug, Clone)]
pub struct Config {
    pub logging: LoggingConfig,
    pub postgres: PostgresConfig,
    pub amqp: AmqpConfig,
    pub pull: PullConfig,
}

#[derive(Debug, Clone)]
pub struct LoggingConfig {
    /// Verzeichnis der Logdateien, als Pfadtext.
    pub dir: String,
    pub level: String,
}

#[derive(Debug, Clone)]
pub struct PostgresConfig {
    pub url: String,
    pub lngroot_id: i32,
    pub lngprod_id: i32,
    /// Wenn `true`, werden SELECTs ausgeführt, aber **niemals**
    /// `UPDATE strlocked='N'`. Für Dev-Umgebungen — der Publisher
    /// publisht dann dieselben Avise endlos erneut.
    pub read_only: bool,
}

#[derive(Debug, Clone)]
pub struct AmqpConfig {
    /// AMQP-URI inkl. Credentials + Vhost.
    pub url: String,
    pub outbound_exchange: String,
    pub outbound_routing_key: String,
    /// Wird als `producer` im Event-Envelope eingetragen.
    pub producer_name: String,
    /// Wird als `customer_key` im Event-Envelope eingetragen.
    pub customer_key: String,
}

/// Verbindung zum NATS-Server der HAG-Connect-Plattform.
#[derive(Debug, Clone)]
pub struct NatsConfig {
    pub url: String,
    pub username: Option<String>,
    pub password: Option<String>,
    /// Env-Token (`dev`, `prod`, …), zweites Subject-Segment.
    pub env: String,
    /// Wird als `producer` im Event-Envelope eingetragen.
    pub producer_name: String,
    /// Wird als `customer_key` im Event-Envelope eingetragen.
    pub customer_key: String,
}

#[derive(Debug, Clone)]
pub struct PullConfig {
    /// Taktung der Inner-Loop. Zwischen zwei Pulls wird so viele
    /// Sekunden geschlafen.
    pub interval_seconds: u64,
}

} // verus!
