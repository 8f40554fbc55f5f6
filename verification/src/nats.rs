//! NATS-JetStream-Seite des Publishers: Subject mit Env-Token,
//! Zugangsdaten und die ausgehende Nachricht mit Dedup-Header.
//!
//! JetStream-Publish setzt den `Nats-Msg-Id`-Header auf die
//! event_id; der Stream entdeduppt innerhalb des Stream-Dedup-Windows.
//! Die event_id ist eine namensbasierte UUID (Version 5) aus Bestell- und
//! Positionsnummer der Avis-Zeile: Doppel-Publishes derselben Zeile nach
//! Crash/Restart tragen dieselbe Id und führen zu **einer** Nachricht im
//! Stream.
use vstd::prelude::*;

use crate::config::NatsConfig;
use vstd::slice::slice_to_vec;
use vstd::utf8::encode_utf8;

use crate::envelope::{is_uuid_text, valid_timestamp, AviseData, Envelope};

verus! {

pub const EVENT_NAME: &'static str = "hag.events.schenk.lager.avise.received";

pub const EVENT_VERSION: &'static str = "1.0.1";

/// Header mit dem Server-seitigen Dedup-Key.
pub const MSG_ID_HEADER: &'static str = "Nats-Msg-Id";

/// Name, unter dem sich der Dienst beim Server anmeldet.
pub const CLIENT_NAME: &'static str = "hag-schenk-pull";

/// Zeitlimit für einen Verbindungsversuch, in Sekunden.
pub const CONNECT_TIMEOUT_SECS: u64 = 5;

/// Position des ersten `.` in `s`, `s.len()` wenn es keinen gibt.
pub open spec fn dot_position(s: Seq<char>) -> int
    decreases s.len(),
{
    if s.len() == 0 || s[0] == '.' {
        0
    } else {
        1 + dot_position(s.drop_first())
    }
}

/// `base` mit `env` als zweitem Subject-Segment.
pub open spec fn spec_env_scope_subject(base: Seq<char>, env: Seq<char>) -> Seq<char> {
    let i = dot_position(base);
    if i < base.len() && i + 1 < base.len() {
        base.take(i) + seq!['.'] + env + seq!['.'] + base.skip(i + 1)
    } else {
        base.take(i) + seq!['.'] + env
    }
}

proof fn lemma_dot_position(s: Seq<char>, k: int)
    requires
        0 <= k <= s.len(),
        forall|j: int| 0 <= j < k ==> #[trigger] s[j] != '.',
        k == s.len() || s[k] == '.',
    ensures
        dot_position(s) == k,
    decreases k,
{
    if k > 0 {
        let t = s.drop_first();
        assert forall|j: int| 0 <= j < k - 1 implies #[trigger] t[j] != '.' by {
            assert(t[j] == s[j + 1]);
        }
        if k < s.len() {
            assert(t[k - 1] == s[k]);
        }
        lemma_dot_position(t, k - 1);
    }
}

/// Fügt den Env-Token als zweites Subject-Segment ein:
/// `hag.events.schenk.lager.avise.received` + env=`dev`
/// → `hag.dev.events.schenk.lager.avise.received`.
pub fn env_scope_subject(base: &str, env: &str) -> (r: String)
    ensures
        r@ == spec_env_scope_subject(base@, env@),
        (forall|j: int| 0 <= j < base@.len() ==> #[trigger] base@[j] != '.') ==> r@ == base@ + seq![
            '.',
        ] + env@,
        forall|k: int|
            0 <= k < base@.len() && #[trigger] base@[k] == '.' && (forall|j: int|
                0 <= j < k ==> #[trigger] base@[j] != '.') ==> r@ == base@.subrange(0, k) + seq![
                '.',
            ] + env@ + if k + 1 < base@.len() {
                seq!['.'] + base@.subrange(k + 1, base@.len() as int)
            } else {
                Seq::<char>::empty()
            },
{
    let len = base.unicode_len();
    let mut i: usize = 0;
    while i < len && base.get_char(i) != '.'
        invariant
            len == base@.len(),
            i <= len,
            forall|j: int| 0 <= j < i ==> #[trigger] base@[j] != '.',
        decreases len - i,
    {
        i = i + 1;
    }
    proof {
        lemma_dot_position(base@, i as int);
    }
    let dot = ".";
    proof {
        reveal_strlit(".");
    }
    let mut out = String::from_str(base.substring_char(0, i));
    out.append(dot);
    out.append(env);
    if i < len && i + 1 < len {
        out.append(dot);
        out.append(base.substring_char(i + 1, len));
    }
    proof {
        assert(base@.subrange(0, i as int) =~= base@.take(i as int));
        assert(base@.subrange(i + 1, len as int) =~= base@.skip(i + 1));
        assert(base@.take(len as int) =~= base@);
        assert forall|k: int|
            0 <= k < base@.len() && #[trigger] base@[k] == '.' && (forall|j: int|
                0 <= j < k ==> #[trigger] base@[j] != '.') implies k == i by {
            if k < i {
            } else if k > i {
                assert(base@[i as int] != '.');
            }
        }
        if i + 1 < len {
            assert(out@ =~= base@.subrange(0, i as int) + seq!['.'] + env@ + (seq!['.']
                + base@.subrange(i + 1, len as int)));
        } else {
            assert(out@ =~= base@.subrange(0, i as int) + seq!['.'] + env@ + Seq::<char>::empty());
        }
    }
    out
}

/// Der Env-Token wird zweites Segment: `h.rest` wird `h.env.rest`
/// (`h` ohne Punkt), `h` und `h.` werden `h.env`.
pub proof fn law_env_scope(h: Seq<char>, rest: Seq<char>, env: Seq<char>)
    requires
        forall|j: int| 0 <= j < h.len() ==> #[trigger] h[j] != '.',
    ensures
        spec_env_scope_subject(h + seq!['.'] + rest, env) == if rest.len() > 0 {
            h + seq!['.'] + env + seq!['.'] + rest
        } else {
            h + seq!['.'] + env
        },
        spec_env_scope_subject(h, env) == h + seq!['.'] + env,
{
    let base = h + seq!['.'] + rest;
    assert forall|j: int| 0 <= j < h.len() implies #[trigger] base[j] != '.' by {
        assert(base[j] == h[j]);
    }
    assert(base[h.len() as int] == '.');
    lemma_dot_position(base, h.len() as int);
    assert(base.take(h.len() as int) =~= h);
    assert(base.skip(h.len() as int + 1) =~= rest);
    lemma_dot_position(h, h.len() as int);
    assert(h.take(h.len() as int) =~= h);
}

/// Das env-skopierte Subject des Publishers.
pub fn subject_for(cfg: &NatsConfig) -> (r: String)
    ensures
        r@ == spec_env_scope_subject(EVENT_NAME@, cfg.env@),
{
    env_scope_subject(EVENT_NAME, cfg.env.as_str())
}

/// Benutzer und Passwort für die Anmeldung, nur wenn beide gesetzt sind.
pub fn credentials(cfg: &NatsConfig) -> (r: Option<(String, String)>)
    ensures
        match r {
            Some((user, pass)) => cfg.username.deep_view() == Some(user@)
                && cfg.password.deep_view() == Some(pass@),
            None => cfg.username is None || cfg.password is None,
        },
{
    match (&cfg.username, &cfg.password) {
        (Some(user), Some(pass)) => Some((user.clone(), pass.clone())),
        _ => None,
    }
}

/// Namensraum der Event-Ids: die UUID v5 von
/// `hag.events.schenk.lager.avise.received` im DNS-Namensraum
/// (`efbaa8b2-e8c3-5663-8d09-1e7f4b4e3ae3`).
pub open spec fn event_id_namespace() -> Seq<u8> {
    seq![239u8, 186, 168, 178, 232, 195, 86, 99, 141, 9, 30, 127, 75, 78, 58, 227]
}

fn event_id_namespace_bytes() -> (ns: [u8; 16])
    ensures
        ns@ == event_id_namespace(),
{
    let ns: [u8; 16] = [239, 186, 168, 178, 232, 195, 86, 99, 141, 9, 30, 127, 75, 78, 58, 227];
    proof {
        assert(ns@ =~= event_id_namespace());
    }
    ns
}

/// Textform der namensbasierten UUID (Version 5, SHA-1) zu Namensraum und
/// Name, wie `uuid::Uuid::new_v5(..).to_string()` sie liefert.
pub uninterp spec fn uuid_v5_text(namespace: Seq<u8>, name: Seq<u8>) -> Seq<char>;

/// `uuid::Uuid::new_v5(&Uuid::from_bytes(namespace), name).to_string()`:
/// die namensbasierte UUID (SHA-1 über Namensraum und Name, Version 5,
/// Variante RFC 4122) in Textform. Zugesagt ist, dass sie nur von
/// Namensraum und Name abhängt (benannt als `uuid_v5_text`), und ihre Form.
#[verifier::external_body]
fn name_based_uuid(namespace: &[u8; 16], name: &[u8]) -> (id: String)
    ensures
        id@ == uuid_v5_text(namespace@, name@),
        is_uuid_text(id@, '5'),
{
    uuid::Uuid::new_v5(&uuid::Uuid::from_bytes(*namespace), name).to_string()
}

/// `n` Bytes von `u` zur Basis 256, das höchstwertige zuerst.
pub open spec fn be_digits(u: nat, n: nat) -> Seq<u8>
    decreases n,
{
    if n == 0 {
        Seq::empty()
    } else {
        be_digits(u / 256, (n - 1) as nat).push((u % 256) as u8)
    }
}

/// Die Positionsnummer als 8 Bytes: um `2^63` verschoben, so dass jede
/// `i64` genau einen Wert in `0 .. 2^64` hat, höchstwertiges Byte zuerst.
pub open spec fn position_bytes(position_nr: i64) -> Seq<u8> {
    be_digits((position_nr + 0x8000_0000_0000_0000) as nat, 8)
}

/// Name der Avis-Zeile für die Event-Id: UTF-8 der Bestellnummer, dann die
/// 8 Bytes der Positionsnummer.
pub open spec fn avise_key_bytes(bestellnr: Seq<char>, position_nr: i64) -> Seq<u8> {
    encode_utf8(bestellnr) + position_bytes(position_nr)
}

/// Die Event-Id der Avis-Zeile (Bestellnummer, Positionsnummer).
pub open spec fn nats_event_id(bestellnr: Seq<char>, position_nr: i64) -> Seq<char> {
    uuid_v5_text(event_id_namespace(), avise_key_bytes(bestellnr, position_nr))
}

fn push_be_digits(u: u64, n: usize, out: &mut Vec<u8>)
    requires
        n <= 8,
    ensures
        final(out)@ == old(out)@ + be_digits(u as nat, n as nat),
    decreases n,
{
    if n > 0 {
        push_be_digits(u / 256, n - 1, out);
        let b: u8 = (u % 256) as u8;
        out.push(b);
        proof {
            assert(be_digits(u as nat, n as nat) == be_digits(
                (u / 256) as nat,
                (n - 1) as nat,
            ).push((u % 256) as u8));
            assert(out@ =~= old(out)@ + be_digits(u as nat, n as nat));
        }
    } else {
        assert(old(out)@ + be_digits(u as nat, 0) =~= old(out)@);
    }
}

/// Der Name der Avis-Zeile als Bytes.
pub fn avise_key(bestellnr: &String, position_nr: i64) -> (k: Vec<u8>)
    ensures
        k@ == avise_key_bytes(bestellnr@, position_nr),
{
    let mut k = slice_to_vec(bestellnr.as_str().as_bytes());
    let u: u64 = if position_nr >= 0 {
        (position_nr as u64) + 0x8000_0000_0000_0000
    } else {
        ((position_nr + 0x7fff_ffff_ffff_ffff) + 1) as u64
    };
    assert(u as int == position_nr + 0x8000_0000_0000_0000);
    push_be_digits(u, 8, &mut k);
    k
}

/// Die Event-Id einer Avis-Zeile: hängt nur von Bestell- und
/// Positionsnummer ab.
pub fn event_id_for(bestellnr: &String, position_nr: i64) -> (id: String)
    ensures
        id@ == nats_event_id(bestellnr@, position_nr),
        is_uuid_text(id@, '5'),
{
    let ns = event_id_namespace_bytes();
    let key = avise_key(bestellnr, position_nr);
    name_based_uuid(&ns, key.as_slice())
}

proof fn lemma_be_digits_injective(u: nat, v: nat, n: nat)
    requires
        be_digits(u, n) == be_digits(v, n),
    ensures
        u % pow256(n) == v % pow256(n),
    decreases n,
{
    if n > 0 {
        let du = be_digits((u / 256) as nat, (n - 1) as nat);
        let dv = be_digits((v / 256) as nat, (n - 1) as nat);
        lemma_be_digits_len((u / 256) as nat, (n - 1) as nat);
        lemma_be_digits_len((v / 256) as nat, (n - 1) as nat);
        assert(be_digits(u, n) == du.push((u % 256) as u8));
        assert(be_digits(v, n) == dv.push((v % 256) as u8));
        assert(du =~= be_digits(u, n).drop_last());
        assert(dv =~= be_digits(v, n).drop_last());
        lemma_be_digits_injective((u / 256) as nat, (v / 256) as nat, (n - 1) as nat);
        assert(be_digits(u, n)[n - 1] == (u % 256) as u8);
        assert(be_digits(v, n)[n - 1] == (v % 256) as u8);
        assert(u % 256 == v % 256);
        lemma_pow256_pos((n - 1) as nat);
        lemma_mod_split(u, pow256((n - 1) as nat));
        lemma_mod_split(v, pow256((n - 1) as nat));
    }
}

/// `256^n`.
pub open spec fn pow256(n: nat) -> nat
    decreases n,
{
    if n == 0 {
        1
    } else {
        256 * pow256((n - 1) as nat)
    }
}

proof fn lemma_be_digits_len(u: nat, n: nat)
    ensures
        be_digits(u, n).len() == n,
    decreases n,
{
    if n > 0 {
        lemma_be_digits_len((u / 256) as nat, (n - 1) as nat);
    }
}

proof fn lemma_pow256_pos(n: nat)
    ensures
        pow256(n) > 0,
    decreases n,
{
    if n > 0 {
        lemma_pow256_pos((n - 1) as nat);
    }
}

/// `u % (256 * p) == (u / 256) % p * 256 + u % 256`.
proof fn lemma_mod_split(u: nat, p: nat)
    requires
        p > 0,
    ensures
        u % (256 * p) == ((u / 256) % p) * 256 + u % 256,
{
    assert(u % (256 * p) == ((u / 256) % p) * 256 + u % 256) by (nonlinear_arith)
        requires
            p > 0,
    {
        let q = u / 256;
        let r = u % 256;
        assert(u == 256 * q + r);
        let q2 = q / p;
        let r2 = q % p;
        assert(q == p * q2 + r2);
        assert(u == (256 * p) * q2 + (256 * r2 + r));
        assert(0 <= 256 * r2 + r < 256 * p);
    }
}

/// Verschiedene Avis-Zeilen haben verschiedene Namen: aus dem Namen sind
/// Bestell- und Positionsnummer eindeutig bestimmt.
pub proof fn lemma_avise_key_injective(b1: Seq<char>, p1: i64, b2: Seq<char>, p2: i64)
    requires
        avise_key_bytes(b1, p1) == avise_key_bytes(b2, p2),
    ensures
        b1 == b2,
        p1 == p2,
{
    let k1 = avise_key_bytes(b1, p1);
    let k2 = avise_key_bytes(b2, p2);
    let u1 = (p1 + 0x8000_0000_0000_0000) as nat;
    let u2 = (p2 + 0x8000_0000_0000_0000) as nat;
    lemma_be_digits_len(u1, 8);
    lemma_be_digits_len(u2, 8);
    let e1 = encode_utf8(b1);
    let e2 = encode_utf8(b2);
    assert(position_bytes(p1) == be_digits(u1, 8));
    assert(position_bytes(p2) == be_digits(u2, 8));
    assert(k1.len() == e1.len() + 8);
    assert(k2.len() == e2.len() + 8);
    assert(e1.len() == e2.len());
    assert(e1 =~= k1.subrange(0, e1.len() as int));
    assert(e2 =~= k2.subrange(0, e2.len() as int));
    assert(position_bytes(p1) =~= k1.subrange(e1.len() as int, k1.len() as int));
    assert(position_bytes(p2) =~= k2.subrange(e2.len() as int, k2.len() as int));
    lemma_be_digits_injective(u1, u2, 8);
    assert(pow256(8) == 0x1_0000_0000_0000_0000) by {
        reveal_with_fuel(pow256, 9);
    }
    vstd::utf8::encode_utf8_decode_utf8(b1);
    vstd::utf8::encode_utf8_decode_utf8(b2);
}

/// Zwei Nachrichten zur selben Avis-Zeile (gleiche Bestell- und
/// Positionsnummer) tragen dieselbe Event-Id und damit denselben
/// `Nats-Msg-Id`: ein erneutes Publish nach Crash/Restart wird im
/// Dedup-Fenster des Streams verworfen.
pub proof fn lemma_same_row_same_msg_id(m1: NatsMessage, d1: AviseData, m2: NatsMessage, d2: AviseData)
    requires
        m1.msg_id@ == nats_event_id(d1.bestellnr@, d1.position_nr),
        m2.msg_id@ == nats_event_id(d2.bestellnr@, d2.position_nr),
        d1.bestellnr@ == d2.bestellnr@,
        d1.position_nr == d2.position_nr,
    ensures
        m1.msg_id@ == m2.msg_id@,
{
}

/// Eine Avis-Zeile als JetStream-Nachricht: Subject, Dedup-Key und Envelope.
#[derive(Debug, Clone)]
pub struct NatsMessage {
    pub subject: String,
    /// Wert des `Nats-Msg-Id`-Headers.
    pub msg_id: String,
    pub envelope: Envelope<AviseData>,
}

/// Baut die Nachricht für eine Avis-Zeile als
/// `hag.events.schenk.lager.avise.received` mit der gegebenen Event-Id,
/// die zugleich Dedup-Key ist.
pub fn message_with_event_id(cfg: &NatsConfig, subject: &String, event_id: String, data: AviseData) -> (m:
    NatsMessage)
    ensures
        m.subject@ == subject@,
        m.msg_id@ == event_id@,
        m.envelope.event_id@ == event_id@,
        valid_timestamp(m.envelope.occurred_at),
        m.envelope.carries(EVENT_NAME@, EVENT_VERSION@, cfg.producer_name@, cfg.customer_key@, data),
{
    let envelope = Envelope::wrap_with_id(
        event_id,
        String::from_str(EVENT_NAME),
        String::from_str(EVENT_VERSION),
        cfg.producer_name.clone(),
        cfg.customer_key.clone(),
        data,
    );
    NatsMessage { subject: subject.clone(), msg_id: envelope.event_id.clone(), envelope }
}

/// Baut die Nachricht für eine Avis-Zeile als
/// `hag.events.schenk.lager.avise.received`. Die Event-Id und der
/// Dedup-Key sind die namensbasierte UUID der Zeile (`nats_event_id`).
pub fn avise_message(cfg: &NatsConfig, subject: &String, data: AviseData) -> (m: NatsMessage)
    ensures
        m.subject@ == subject@,
        m.msg_id@ == m.envelope.event_id@,
        m.envelope.event_id@ == nats_event_id(data.bestellnr@, data.position_nr),
        is_uuid_text(m.envelope.event_id@, '5'),
        valid_timestamp(m.envelope.occurred_at),
        m.envelope.carries(EVENT_NAME@, EVENT_VERSION@, cfg.producer_name@, cfg.customer_key@, data),
{
    let event_id = event_id_for(&data.bestellnr, data.position_nr);
    message_with_event_id(cfg, subject, event_id, data)
}

} // verus!
