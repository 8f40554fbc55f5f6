//! Event-Envelope + Payload für `hag.events.schenk.lager.avise.received`
//! (v1.0.1, v2-Subject-Taxonomy). Die JSON-Form schreibt das Programm;
//! hier entstehen die Werte.
//!
//! Mengen werden als ganze Tausendstel geführt (`numeric(13,3)` in der
//! Quelltabelle): `800000` steht für `800.000`.
use chrono::NaiveDate;
use vstd::prelude::*;

verus! {

/// `chrono::NaiveDate`: Bestell- und Liefertermine werden nur durchgereicht.
#[verifier::external_type_specification]
#[verifier::external_body]
pub struct ExNaiveDate(NaiveDate);

/// `serde_json::Value`: freie JSON-Anhänge des Envelopes, nur durchgereicht.
#[verifier::external_type_specification]
#[verifier::external_body]
pub struct ExJsonValue(serde_json::Value);

/// Zeitpunkt in UTC: Sekunden seit der Unix-Epoche und Nanosekunden
/// innerhalb der Sekunde (über `999_999_999` nur in einer Schaltsekunde).
#[derive(Debug, Clone, Copy)]
pub struct UtcTimestamp {
    pub secs: i64,
    pub nanos: u32,
}

/// Ein gültiger Zeitpunkt im Sinn von `chrono`: Nanosekunden unter zwei
/// Sekunden, und über einer Sekunde nur in der letzten Sekunde einer Minute.
pub open spec fn valid_timestamp(t: UtcTimestamp) -> bool {
    &&& t.nanos < 2_000_000_000
    &&& t.nanos >= 1_000_000_000 ==> t.secs % 60 == 59
}

pub open spec fn is_lower_hex_digit(c: char) -> bool {
    ||| ('0' as u32) <= (c as u32) <= ('9' as u32)
    ||| ('a' as u32) <= (c as u32) <= ('f' as u32)
}

/// Textform einer UUID der Version `version` (Variante RFC 4122):
/// `xxxxxxxx-xxxx-Vxxx-Nxxx-xxxxxxxxxxxx` in Kleinbuchstaben, `V` die
/// Version, `N` ∈ {8,9,a,b}.
pub open spec fn is_uuid_text(s: Seq<char>, version: char) -> bool {
    &&& s.len() == 36
    &&& forall|i: int|
        0 <= i < 36 ==> if i == 8 || i == 13 || i == 18 || i == 23 {
            #[trigger] s[i] == '-'
        } else {
            is_lower_hex_digit(s[i])
        }
    &&& s[14] == version
    &&& (s[19] == '8' || s[19] == '9' || s[19] == 'a' || s[19] == 'b')
}

/// Textform einer zufälligen UUID (Version 4).
pub open spec fn is_uuid_v4_text(s: Seq<char>) -> bool {
    is_uuid_text(s, '4')
}

/// Eine frische Event-Id: `uuid::Uuid::new_v4()` in Textform
/// (`to_string`, hyphenated, Kleinbuchstaben). Zugesagt ist nur die Form;
/// welche Id kommt, entscheidet der Zufall. `new_v4` bricht mit einem
/// Panic ab, wenn das Betriebssystem keine Zufallsbytes liefert; das
/// lässt sich an keinem Argument ausschließen.
#[verifier::external_body]
fn new_event_id() -> (id: String)
    ensures
        is_uuid_v4_text(id@),
{
    uuid::Uuid::new_v4().to_string()
}

/// Die aktuelle Zeit aus `chrono::Utc::now()`, zerlegt mit `timestamp()`
/// und `timestamp_subsec_nanos()`. `now` liest die Systemzeit seit der
/// Unix-Epoche: die Sekunden sind nicht negativ, die Nanosekunden unter
/// einer Sekunde. Welcher Zeitpunkt es ist, hängt von der Uhr ab. Steht
/// die Systemuhr vor 1970, bricht `now` mit einem Panic ab; das lässt sich
/// an keinem Argument ausschließen.
#[verifier::external_body]
fn utc_now() -> (t: UtcTimestamp)
    ensures
        t.secs >= 0,
        t.nanos < 1_000_000_000,
{
    let now = chrono::Utc::now();
    UtcTimestamp { secs: now.timestamp(), nanos: now.timestamp_subsec_nanos() }
}

#[derive(Debug, Clone)]
pub struct Envelope<T> {
    pub event_id: String,
    pub event_name: String,
    pub event_version: String,
    pub occurred_at: UtcTimestamp,
    pub producer: String,
    pub customer_key: String,
    pub correlation_id: Option<String>,
    pub causation_id: Option<String>,
    pub data: T,
    pub attachments: Option<serde_json::Value>,
    pub raw_payload: Option<serde_json::Value>,
}

impl<T> Envelope<T> {
    /// Die Kopf- und Nutzdaten des Envelopes sind die übergebenen Werte,
    /// die optionalen Felder fehlen.
    pub open spec fn carries(
        self,
        event_name: Seq<char>,
        event_version: Seq<char>,
        producer: Seq<char>,
        customer_key: Seq<char>,
        data: T,
    ) -> bool {
        &&& self.event_name@ == event_name
        &&& self.event_version@ == event_version
        &&& self.producer@ == producer
        &&& self.customer_key@ == customer_key
        &&& self.data == data
        &&& self.correlation_id is None
        &&& self.causation_id is None
        &&& self.attachments is None
        &&& self.raw_payload is None
    }

    /// Ein Envelope, der diese Werte trägt, hat sie in den gleichnamigen
    /// Feldern: Name, Version, Producer, Customer-Key und Nutzdaten, und
    /// keine Korrelations-, Kausal-, Anhangs- oder Rohdaten.
    pub proof fn law_carries(
        self,
        event_name: Seq<char>,
        event_version: Seq<char>,
        producer: Seq<char>,
        customer_key: Seq<char>,
        data: T,
    )
        requires
            self.carries(event_name, event_version, producer, customer_key, data),
        ensures
            self.event_name@ == event_name,
            self.event_version@ == event_version,
            self.producer@ == producer,
            self.customer_key@ == customer_key,
            self.data == data,
            self.correlation_id is None,
            self.causation_id is None,
            self.attachments is None,
            self.raw_payload is None,
    {
    }

    /// Baut einen Envelope aus einer schon vergebenen Event-Id und
    /// einem Zeitpunkt.
    pub fn compose(
        event_id: String,
        occurred_at: UtcTimestamp,
        event_name: String,
        event_version: String,
        producer: String,
        customer_key: String,
        data: T,
    ) -> (e: Self)
        ensures
            e.event_id@ == event_id@,
            e.occurred_at == occurred_at,
            e.carries(event_name@, event_version@, producer@, customer_key@, data),
    {
        Envelope {
            event_id,
            event_name,
            event_version,
            occurred_at,
            producer,
            customer_key,
            correlation_id: None,
            causation_id: None,
            data,
            attachments: None,
            raw_payload: None,
        }
    }

    /// Baut einen Envelope mit der gegebenen Event-Id und der aktuellen Zeit.
    pub fn wrap_with_id(
        event_id: String,
        event_name: String,
        event_version: String,
        producer: String,
        customer_key: String,
        data: T,
    ) -> (e: Self)
        ensures
            e.event_id@ == event_id@,
            valid_timestamp(e.occurred_at),
            e.occurred_at.secs >= 0,
            e.occurred_at.nanos < 1_000_000_000,
            e.carries(event_name@, event_version@, producer@, customer_key@, data),
    {
        let occurred_at = utc_now();
        Self::compose(event_id, occurred_at, event_name, event_version, producer, customer_key, data)
    }

    /// Baut einen Envelope mit frischer UUID und aktueller Zeit.
    pub fn wrap(
        event_name: String,
        event_version: String,
        producer: String,
        customer_key: String,
        data: T,
    ) -> (e: Self)
        ensures
            is_uuid_v4_text(e.event_id@),
            valid_timestamp(e.occurred_at),
            e.occurred_at.secs >= 0,
            e.occurred_at.nanos < 1_000_000_000,
            e.carries(event_name@, event_version@, producer@, customer_key@, data),
    {
        let event_id = new_event_id();
        let occurred_at = utc_now();
        Self::compose(event_id, occurred_at, event_name, event_version, producer, customer_key, data)
    }
}

/// Payload für `hag.events.schenk.lager.avise.received`. Mengen in
/// Tausendsteln.
#[derive(Debug, Clone)]
pub struct AviseData {
    pub bestellnr: String,
    pub position_nr: i64,
    pub ta_nummer: Option<String>,
    pub artikelnr: String,
    pub artikel_bezeichnung: Option<String>,
    /// Bestellte Menge in Tausendsteln.
    pub menge_bestellt: i64,
    /// Kapazität einer Vollpalette in Tausendsteln.
    pub pal_menge: Option<i128>,
    pub lngbuendelung: Option<i32>,
    pub mengeneinheit: Option<String>,
    pub lieferantennr: Option<String>,
    pub lieferantenfilialnr: Option<String>,
    pub lagerkennzeichen: Option<String>,
    pub bestelldatum: Option<NaiveDate>,
    pub liefertermin: Option<NaiveDate>,
    pub jahrgang: Option<String>,
    pub gebinde_typ_prefill: Option<String>,
}

} // verus!
