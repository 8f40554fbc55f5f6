//! Fehlerarten des Dienstes, jeweils mit der Meldung der Ursache.
use vstd::prelude::*;

verus! {

#[derive(Debug, Clone)]
pub enum AppError {
    /// Konfiguration nicht lesbar oder unvollständig.
    Config(String),
    /// Fehler der Datenbank.
    Db(String),
    /// Fehler beim Lesen oder Schreiben von Dateien.
    Io(String),
    /// Sonstige Fehler (Verbindungsaufbau, Serialisierung, Publish).
    Other(String),
}

pub type AppResult<T> = Result<T, AppError>;

} // verus!
