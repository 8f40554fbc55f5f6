//! Einstellungen für das Logging (Verzeichnis der JSON-Logdatei und
//! Filter-Level). Eingerichtet wird es im Programm.
use vstd::prelude::*;

verus! {

pub struct LoggingConfig {
    /// Verzeichnis der Logdateien, als Pfadtext.
    pub dir: String,
    pub level: String,
}

} // verus!
