use hag_schenk_pull::config::NatsConfig;
use hag_schenk_pull::envelope::AviseData;
use hag_schenk_pull::nats::{
    avise_key, avise_message, credentials, env_scope_subject, event_id_for, message_with_event_id,
    subject_for, EVENT_NAME, EVENT_VERSION,
};

fn data(bestellnr: &str) -> AviseData {
    AviseData {
        bestellnr: bestellnr.to_string(),
        position_nr: 3,
        ta_nummer: None,
        artikelnr: "07418".to_string(),
        artikel_bezeichnung: None,
        menge_bestellt: 800_000,
        pal_menge: Some(100_000),
        lngbuendelung: Some(6),
        mengeneinheit: None,
        lieferantennr: None,
        lieferantenfilialnr: None,
        lagerkennzeichen: None,
        bestelldatum: None,
        liefertermin: None,
        jahrgang: Some("2022".to_string()),
        gebinde_typ_prefill: Some("FLA".to_string()),
    }
}

fn cfg(username: Option<&str>, password: Option<&str>) -> NatsConfig {
    NatsConfig {
        url: "nats://192.168.4.128:4222".to_string(),
        username: username.map(|s| s.to_string()),
        password: password.map(|s| s.to_string()),
        env: "dev".to_string(),
        producer_name: "hag-schenk-pull".to_string(),
        customer_key: "SCHENK".to_string(),
    }
}

fn is_uuid_v5(s: &str) -> bool {
    let c: Vec<char> = s.chars().collect();
    c.len() == 36
        && c.iter().enumerate().all(|(i, ch)| {
            if [8, 13, 18, 23].contains(&i) {
                *ch == '-'
            } else {
                ch.is_ascii_digit() || ('a'..='f').contains(ch)
            }
        })
        && c[14] == '5'
        && "89ab".contains(c[19])
}

#[test]
fn env_scope_dev() {
    assert_eq!(
        env_scope_subject("hag.events.schenk.lager.avise.received", "dev"),
        "hag.dev.events.schenk.lager.avise.received"
    );
}

#[test]
fn env_scope_prod() {
    assert_eq!(
        env_scope_subject("hag.events.schenk.lager.avise.received", "prod"),
        "hag.prod.events.schenk.lager.avise.received"
    );
}

#[test]
fn env_scope_without_rest() {
    assert_eq!(env_scope_subject("hag", "dev"), "hag.dev");
    assert_eq!(env_scope_subject("hag.", "dev"), "hag.dev");
    assert_eq!(env_scope_subject(".events", "dev"), ".dev.events");
    assert_eq!(env_scope_subject("", "dev"), ".dev");
}

#[test]
fn subject_uses_configured_env() {
    assert_eq!(subject_for(&cfg(None, None)), "hag.dev.events.schenk.lager.avise.received");
}

#[test]
fn credentials_only_when_both_set() {
    assert_eq!(
        credentials(&cfg(Some("svc-hag-schenk-pull-dev"), Some("geheim"))),
        Some(("svc-hag-schenk-pull-dev".to_string(), "geheim".to_string()))
    );
    assert_eq!(credentials(&cfg(Some("svc"), None)), None);
    assert_eq!(credentials(&cfg(None, Some("geheim"))), None);
    assert_eq!(credentials(&cfg(None, None)), None);
}

#[test]
fn message_dedup_key_is_event_id() {
    let c = cfg(None, None);
    let subject = subject_for(&c);
    let m = avise_message(&c, &subject, data("KA24/001723"));
    assert_eq!(m.subject, "hag.dev.events.schenk.lager.avise.received");
    assert_eq!(m.msg_id, m.envelope.event_id);
    assert!(is_uuid_v5(&m.msg_id));
    assert_eq!(m.envelope.event_name, EVENT_NAME);
    assert_eq!(m.envelope.event_name, "hag.events.schenk.lager.avise.received");
    assert_eq!(m.envelope.event_version, EVENT_VERSION);
    assert_eq!(m.envelope.event_version, "1.0.1");
    assert_eq!(m.envelope.producer, "hag-schenk-pull");
    assert_eq!(m.envelope.customer_key, "SCHENK");
    assert_eq!(m.envelope.data.bestellnr, "KA24/001723");
}

#[test]
fn republish_of_same_row_has_same_msg_id() {
    let c = cfg(None, None);
    let subject = subject_for(&c);
    let m1 = avise_message(&c, &subject, data("KA24/001723"));
    let mut d = data("KA24/001723");
    d.menge_bestellt = 1;
    let m2 = avise_message(&c, &subject, d);
    assert_eq!(m1.msg_id, m2.msg_id);
    let m3 = avise_message(&c, &subject, data("KA24/001724"));
    assert_ne!(m1.msg_id, m3.msg_id);
    let mut d = data("KA24/001723");
    d.position_nr = 4;
    let m4 = avise_message(&c, &subject, d);
    assert_ne!(m1.msg_id, m4.msg_id);
}

#[test]
fn event_id_is_name_based_uuid_of_row() {
    assert_eq!(
        event_id_for(&"KA24/001723".to_string(), 1),
        "41a2a316-4a49-5bd6-b2e7-13f3a451c506"
    );
    assert_eq!(
        event_id_for(&"KA24/001723".to_string(), 2),
        "029abab1-a274-520d-a22c-53425c9036df"
    );
    assert_eq!(event_id_for(&String::new(), 0), "4b53812a-737b-5311-91d4-49e660e78220");
    assert_eq!(event_id_for(&"Ä".to_string(), -1), "c4fdc094-ea5d-52fc-9208-d2e6586698db");
}

#[test]
fn avise_key_layout() {
    let k = avise_key(&"AB".to_string(), 1);
    assert_eq!(k, vec![b'A', b'B', 0x80, 0, 0, 0, 0, 0, 0, 1]);
    let k = avise_key(&"Ä".to_string(), -1);
    assert_eq!(k, vec![0xc3, 0x84, 0x7f, 0xff, 0xff, 0xff, 0xff, 0xff, 0xff, 0xff]);
    let k = avise_key(&String::new(), i64::MIN);
    assert_eq!(k, vec![0; 8]);
    let k = avise_key(&String::new(), i64::MAX);
    assert_eq!(k, vec![0xff; 8]);
}

#[test]
fn message_with_given_event_id() {
    let c = cfg(None, None);
    let subject = subject_for(&c);
    let m = message_with_event_id(&c, &subject, "id-7".to_string(), data("X"));
    assert_eq!(m.msg_id, "id-7");
    assert_eq!(m.envelope.event_id, "id-7");
    assert_eq!(m.envelope.data.bestellnr, "X");
}
