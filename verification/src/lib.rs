//! Pull-Publisher für Schenk-Avise: Entscheidungslogik, Ereignis-Aufbau
//! und Zustandsmaschinen, mit bewiesenen Verträgen. Die Ein- und Ausgabe
//! (Postgres, AMQP, NATS, Logging, Konfigurationsdateien) liegt im
//! Programm unter `app/`.
pub mod amqp;
pub mod config;
pub mod db;
pub mod envelope;
pub mod error;
pub mod logging;
pub mod nats;
pub mod pull;
pub mod retry;
pub mod text;
