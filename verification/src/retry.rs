//! Verbindungsaufbau mit Wiederholung: 10 Versuche, dazwischen je 3 s
//! Pause (auch nach dem letzten Fehlschlag, bevor aufgegeben wird).
use vstd::prelude::*;

verus! {

/// Höchstzahl der Verbindungsversuche beim Start.
pub const MAX_CONNECT_ATTEMPTS: u32 = 10;

/// Pause nach einem fehlgeschlagenen Versuch, in Sekunden.
pub const RETRY_DELAY_SECS: u64 = 3;

/// Zählt die Verbindungsversuche.
#[derive(Debug, Clone, Copy)]
pub struct ConnectRetry {
    attempts: u32,
}

impl ConnectRetry {
    /// Anzahl der bisher begonnenen Versuche.
    pub closed spec fn attempts(self) -> u32 {
        self.attempts
    }

    pub fn new() -> (r: Self)
        ensures
            r.attempts() == 0,
    {
        ConnectRetry { attempts: 0 }
    }

    /// Beginnt den nächsten Versuch und gibt seine Nummer (ab 1), oder
    /// `None`, wenn alle Versuche verbraucht sind.
    pub fn next_attempt(&mut self) -> (n: Option<u32>)
        ensures
            old(self).attempts() < MAX_CONNECT_ATTEMPTS ==> {
                &&& n == Some((old(self).attempts() + 1) as u32)
                &&& final(self).attempts() == old(self).attempts() + 1
            },
            old(self).attempts() >= MAX_CONNECT_ATTEMPTS ==> {
                &&& n is None
                &&& final(self).attempts() == old(self).attempts()
            },
    {
        if self.attempts < MAX_CONNECT_ATTEMPTS {
            self.attempts = self.attempts + 1;
            Some(self.attempts)
        } else {
            None
        }
    }
}

} // verus!
