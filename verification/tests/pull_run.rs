use chrono::NaiveDate;
use hag_schenk_pull::config::PostgresConfig;
use hag_schenk_pull::db::{ArtikelInfo, ArtikelLookup, ArtikelQuery, ArtikelRow, AviseRow, MarkPlan};
use hag_schenk_pull::error::AppError;
use hag_schenk_pull::pull::{to_avise_data, PullAction, PullEvent, PullPhase, PullRun};

fn row(bestellnr: &str, pos: i64, artikelnr: Option<&str>, einheit: Option<&str>) -> AviseRow {
    AviseRow {
        strbestellnr: bestellnr.to_string(),
        lngpositionsnr: pos,
        strartikelnr: artikelnr.map(|s| s.to_string()),
        nummenge_bestellt: Some(800_000),
        strmengeneinheit: einheit.map(|s| s.to_string()),
        strjahrgang: Some("2022".to_string()),
        strlieferantennr: Some("4711".to_string()),
        strlieferantenfilialnr: None,
        strtransportauftragsnr: Some("TA-1".to_string()),
        strlagerkennzeichen: Some("L1".to_string()),
        dtmbestelldatum: NaiveDate::from_ymd_opt(2024, 3, 1),
        dtmliefertermin: None,
    }
}

fn pg(read_only: bool) -> PostgresConfig {
    PostgresConfig {
        url: "postgres://localhost/test".to_string(),
        lngroot_id: 1,
        lngprod_id: 2,
        read_only,
    }
}

fn feed(run: &mut PullRun, e: PullEvent) -> PullAction {
    assert!(run.accepts(&e));
    run.step(e)
}

#[test]
fn empty_batch_finishes_with_zero() {
    let (mut run, a) = PullRun::start(pg(false), ArtikelLookup::new());
    assert!(matches!(a, PullAction::Fetch { lngroot_id: 1, lngprod_id: 2 }));
    let a = feed(&mut run, PullEvent::Fetched { rows: Vec::new() });
    assert!(matches!(a, PullAction::Finished { result: Ok(0) }));
    assert_eq!(run.phase_now(), PullPhase::Finished);
    assert!(!run.accepts(&PullEvent::Marked));
}

#[test]
fn fetch_failure_is_db_error() {
    let (mut run, _) = PullRun::start(pg(false), ArtikelLookup::new());
    let a = feed(&mut run, PullEvent::FetchFailed { message: "timeout".to_string() });
    assert!(matches!(a, PullAction::Finished { result: Err(AppError::Db(m)) } if m == "timeout"));
}

#[test]
fn only_confirmed_rows_are_marked_after_all_publishes() {
    let (mut run, _) = PullRun::start(pg(false), ArtikelLookup::new());
    let rows = vec![
        row("KA24/001723", 1, Some("07418"), Some("FL")),
        row("KA24/001723", 2, None, Some("KT")),
        row("KA24/001900", 5, None, None),
    ];
    // Zeile 1: Artikelnummer vorhanden → Stammdaten-Abfrage.
    let a = feed(&mut run, PullEvent::Fetched { rows });
    match a {
        PullAction::QueryArtikel { artikelnr } => assert_eq!(artikelnr, "07418"),
        _ => panic!("expected a query"),
    }
    assert!(!run.accepts(&PullEvent::Published));
    let a = feed(
        &mut run,
        PullEvent::ArtikelQueried {
            outcome: ArtikelQuery::Found(ArtikelRow {
                bezeichnung: Some("Riesling".to_string()),
                nummengeimlademittel: Some(100_000),
                lngbuendelung: Some(6),
            }),
        },
    );
    match a {
        PullAction::Publish { data } => {
            assert_eq!(data.bestellnr, "KA24/001723");
            assert_eq!(data.position_nr, 1);
            assert_eq!(data.artikelnr, "07418");
            assert_eq!(data.artikel_bezeichnung.as_deref(), Some("Riesling"));
            assert_eq!(data.pal_menge, Some(600_000));
            assert_eq!(data.lngbuendelung, Some(6));
            assert_eq!(data.gebinde_typ_prefill.as_deref(), Some("FLA"));
            assert_eq!(data.ta_nummer.as_deref(), Some("TA-1"));
            assert_eq!(data.bestelldatum, NaiveDate::from_ymd_opt(2024, 3, 1));
        }
        _ => panic!("expected a publish"),
    }
    assert_eq!(run.phase_now(), PullPhase::Publishing);
    // Zeile 1 bestätigt; Zeile 2 ohne Artikelnummer → gleich Publish.
    let a = feed(&mut run, PullEvent::Published);
    match a {
        PullAction::Publish { data } => {
            assert_eq!(data.position_nr, 2);
            assert_eq!(data.artikelnr, "");
            assert_eq!(data.artikel_bezeichnung, None);
            assert_eq!(data.pal_menge, None);
            assert_eq!(data.gebinde_typ_prefill.as_deref(), Some("KAR"));
        }
        _ => panic!("expected a publish"),
    }
    // Zeile 2 scheitert, Zeile 3 bestätigt.
    let a = feed(&mut run, PullEvent::PublishFailed);
    assert!(matches!(a, PullAction::Publish { .. }));
    let a = feed(&mut run, PullEvent::Published);
    match a {
        PullAction::Mark { plan: MarkPlan::Update { lngroot_id, lngprod_id, bestellnrs, positionsnrs } } => {
            assert_eq!((lngroot_id, lngprod_id), (1, 2));
            assert_eq!(bestellnrs, vec!["KA24/001723".to_string(), "KA24/001900".to_string()]);
            assert_eq!(positionsnrs, vec![1, 5]);
        }
        _ => panic!("expected the mark"),
    }
    let a = feed(&mut run, PullEvent::Marked);
    assert!(matches!(a, PullAction::Finished { result: Ok(2) }));
}

#[test]
fn lookup_error_marks_published_rows_then_fails() {
    let (mut run, _) = PullRun::start(pg(false), ArtikelLookup::new());
    let rows = vec![
        row("A", 1, None, None),
        row("B", 2, None, None),
        row("C", 3, Some("1"), None),
        row("D", 4, None, None),
    ];
    let a = feed(&mut run, PullEvent::Fetched { rows });
    assert!(matches!(a, PullAction::Publish { .. }));
    let a = feed(&mut run, PullEvent::Published);
    assert!(matches!(a, PullAction::Publish { .. }));
    let a = feed(&mut run, PullEvent::PublishFailed);
    assert!(matches!(a, PullAction::QueryArtikel { .. }));
    let a = feed(
        &mut run,
        PullEvent::ArtikelQueried {
            outcome: ArtikelQuery::Failed { sqlstate: None, message: "boom".to_string() },
        },
    );
    // Nur "A" wurde bestätigt; "C" und "D" werden nicht mehr publiziert.
    match a {
        PullAction::Mark { plan: MarkPlan::Update { bestellnrs, positionsnrs, .. } } => {
            assert_eq!(bestellnrs, vec!["A".to_string()]);
            assert_eq!(positionsnrs, vec![1]);
        }
        _ => panic!("expected the mark of the published rows"),
    }
    assert!(!run.accepts(&PullEvent::Published));
    let a = feed(&mut run, PullEvent::Marked);
    assert!(matches!(a, PullAction::Finished { result: Err(AppError::Db(m)) } if m == "boom"));
    assert_eq!(run.phase_now(), PullPhase::Finished);
}

#[test]
fn lookup_error_on_first_row_marks_nothing_and_keeps_error() {
    let (mut run, _) = PullRun::start(pg(false), ArtikelLookup::new());
    let a = feed(&mut run, PullEvent::Fetched { rows: vec![row("A", 1, Some("1"), None)] });
    assert!(matches!(a, PullAction::QueryArtikel { .. }));
    let a = feed(
        &mut run,
        PullEvent::ArtikelQueried {
            outcome: ArtikelQuery::Failed { sqlstate: Some("08006".to_string()), message: "down".to_string() },
        },
    );
    assert!(matches!(a, PullAction::Mark { plan: MarkPlan::Nothing }));
    let a = feed(&mut run, PullEvent::MarkFailed { message: "locked".to_string() });
    assert!(matches!(a, PullAction::Finished { result: Err(AppError::Db(m)) } if m == "down"));
}

#[test]
fn missing_artikelbasis_stops_queries_for_later_rows_and_runs() {
    let (mut run, _) = PullRun::start(pg(false), ArtikelLookup::new());
    let rows = vec![row("A", 1, Some("1"), None), row("B", 2, Some("2"), None)];
    let a = feed(&mut run, PullEvent::Fetched { rows });
    assert!(matches!(a, PullAction::QueryArtikel { .. }));
    let a = feed(
        &mut run,
        PullEvent::ArtikelQueried {
            outcome: ArtikelQuery::Failed {
                sqlstate: Some("42P01".to_string()),
                message: "relation does not exist".to_string(),
            },
        },
    );
    match a {
        PullAction::Publish { data } => assert_eq!(data.artikel_bezeichnung, None),
        _ => panic!("expected a publish"),
    }
    let a = feed(&mut run, PullEvent::Published);
    assert!(matches!(a, PullAction::Publish { .. }));
    let a = feed(&mut run, PullEvent::Published);
    assert!(matches!(a, PullAction::Mark { .. }));
    let a = feed(&mut run, PullEvent::MarkFailed { message: "locked".to_string() });
    assert!(matches!(a, PullAction::Finished { result: Err(AppError::Db(m)) } if m == "locked"));
    let lookup = run.artikel_lookup();
    assert!(lookup.artikelbasis_unavailable);
    let (mut next, _) = PullRun::start(pg(false), lookup);
    let a = feed(&mut next, PullEvent::Fetched { rows: vec![row("C", 3, Some("3"), None)] });
    assert!(matches!(a, PullAction::Publish { .. }));
}

#[test]
fn read_only_batch_skips_update() {
    let (mut run, _) = PullRun::start(pg(true), ArtikelLookup::new());
    let a = feed(&mut run, PullEvent::Fetched { rows: vec![row("A", 1, None, None)] });
    assert!(matches!(a, PullAction::Publish { .. }));
    let a = feed(&mut run, PullEvent::Published);
    assert!(matches!(a, PullAction::Mark { plan: MarkPlan::SkipReadOnly { count: 1 } }));
    let a = feed(&mut run, PullEvent::Marked);
    assert!(matches!(a, PullAction::Finished { result: Ok(1) }));
}

#[test]
fn all_publishes_failing_marks_nothing() {
    let (mut run, _) = PullRun::start(pg(false), ArtikelLookup::new());
    let a = feed(&mut run, PullEvent::Fetched { rows: vec![row("A", 1, None, None)] });
    assert!(matches!(a, PullAction::Publish { .. }));
    let a = feed(&mut run, PullEvent::PublishFailed);
    assert!(matches!(a, PullAction::Mark { plan: MarkPlan::Nothing }));
    let a = feed(&mut run, PullEvent::Marked);
    assert!(matches!(a, PullAction::Finished { result: Ok(0) }));
}

#[test]
fn to_avise_data_defaults() {
    let mut r = row("X", 9, None, Some("ST"));
    r.nummenge_bestellt = None;
    let d = to_avise_data(&r, &ArtikelInfo::default(), Some("ST".to_string()));
    assert_eq!(d.artikelnr, "");
    assert_eq!(d.menge_bestellt, 0);
    assert_eq!(d.mengeneinheit.as_deref(), Some("ST"));
    assert_eq!(d.jahrgang.as_deref(), Some("2022"));
    assert_eq!(d.lieferantennr.as_deref(), Some("4711"));
    assert_eq!(d.lagerkennzeichen.as_deref(), Some("L1"));
    assert_eq!(d.gebinde_typ_prefill.as_deref(), Some("ST"));
}
