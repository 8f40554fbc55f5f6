use hag_schenk_pull::config::PostgresConfig;
use hag_schenk_pull::db::{
    artikel_info_from_row, mark_pulled, prefill_gebinde_typ, ArtikelInfo, ArtikelLookup,
    ArtikelQuery, ArtikelRow, AviseRow, MarkPlan, lookup_artikel_info,
};
use hag_schenk_pull::error::AppError;
use hag_schenk_pull::text::{is_whitespace, trim_bounds};

fn row(bestellnr: &str, pos: i64) -> AviseRow {
    AviseRow {
        strbestellnr: bestellnr.to_string(),
        lngpositionsnr: pos,
        strartikelnr: None,
        nummenge_bestellt: None,
        strmengeneinheit: None,
        strjahrgang: None,
        strlieferantennr: None,
        strlieferantenfilialnr: None,
        strtransportauftragsnr: None,
        strlagerkennzeichen: None,
        dtmbestelldatum: None,
        dtmliefertermin: None,
    }
}

fn pg(read_only: bool) -> PostgresConfig {
    PostgresConfig {
        url: "postgres://localhost/test".to_string(),
        lngroot_id: 7,
        lngprod_id: 11,
        read_only,
    }
}

#[test]
fn abbildung_fl_kt_sonst() {
    assert_eq!(prefill_gebinde_typ(Some("FL")).as_deref(), Some("FLA"));
    assert_eq!(prefill_gebinde_typ(Some("KT")).as_deref(), Some("KAR"));
    assert_eq!(prefill_gebinde_typ(Some("ST")).as_deref(), Some("ST"));
    assert_eq!(prefill_gebinde_typ(Some("")), None);
    assert_eq!(prefill_gebinde_typ(None), None);
}

#[test]
fn prefill_trims_and_cuts_to_three() {
    assert_eq!(prefill_gebinde_typ(Some("  FL  ")).as_deref(), Some("FLA"));
    assert_eq!(prefill_gebinde_typ(Some("\tKT\n")).as_deref(), Some("KAR"));
    assert_eq!(prefill_gebinde_typ(Some("\u{3000}KT\u{a0}")).as_deref(), Some("KAR"));
    assert_eq!(prefill_gebinde_typ(Some("FLASCHE")).as_deref(), Some("FLA"));
    assert_eq!(prefill_gebinde_typ(Some(" KTX ")).as_deref(), Some("KTX"));
    assert_eq!(prefill_gebinde_typ(Some("fl")).as_deref(), Some("fl"));
    assert_eq!(prefill_gebinde_typ(Some("   ")), None);
    assert_eq!(prefill_gebinde_typ(Some("äöüß")).as_deref(), Some("äöü"));
    assert_eq!(prefill_gebinde_typ(Some("F L")).as_deref(), Some("F L"));
}

#[test]
fn prefill_is_never_empty_and_at_most_three_chars() {
    for s in ["", " ", "A", "AB", "ABC", "ABCD", " FL", "KT ", "x y z"] {
        if let Some(g) = prefill_gebinde_typ(Some(s)) {
            assert!(!g.is_empty());
            assert!(g.chars().count() <= 3);
        }
    }
}

#[test]
fn artikel_info_from_full_row() {
    let info = artikel_info_from_row(ArtikelRow {
        bezeichnung: Some("Riesling trocken".to_string()),
        nummengeimlademittel: Some(100_000),
        lngbuendelung: Some(6),
    });
    assert_eq!(info.bezeichnung.as_deref(), Some("Riesling trocken"));
    assert_eq!(info.pal_menge, Some(600_000));
    assert_eq!(info.lngbuendelung, Some(6));
}

#[test]
fn artikel_info_drops_empty_and_non_positive() {
    let info = artikel_info_from_row(ArtikelRow {
        bezeichnung: Some(String::new()),
        nummengeimlademittel: Some(0),
        lngbuendelung: Some(6),
    });
    assert_eq!(info.bezeichnung, None);
    assert_eq!(info.pal_menge, None);
    assert_eq!(info.lngbuendelung, Some(6));

    let info = artikel_info_from_row(ArtikelRow {
        bezeichnung: None,
        nummengeimlademittel: Some(2_500),
        lngbuendelung: Some(0),
    });
    assert_eq!(info.pal_menge, None);
    assert_eq!(info.lngbuendelung, None);

    let info = artikel_info_from_row(ArtikelRow {
        bezeichnung: None,
        nummengeimlademittel: Some(-5),
        lngbuendelung: Some(-2),
    });
    assert_eq!(info.pal_menge, None);
    assert_eq!(info.lngbuendelung, None);

    let info = artikel_info_from_row(ArtikelRow {
        bezeichnung: None,
        nummengeimlademittel: None,
        lngbuendelung: Some(3),
    });
    assert_eq!(info.pal_menge, None);
    assert_eq!(info.lngbuendelung, Some(3));
}

#[test]
fn artikel_info_large_product_is_exact() {
    let info = artikel_info_from_row(ArtikelRow {
        bezeichnung: None,
        nummengeimlademittel: Some(i64::MAX),
        lngbuendelung: Some(i32::MAX),
    });
    assert_eq!(info.pal_menge, Some(i64::MAX as i128 * i32::MAX as i128));
}

#[test]
fn lookup_not_found_and_found() {
    let mut lookup = ArtikelLookup::new();
    let r = lookup_artikel_info(&mut lookup, ArtikelQuery::NotFound).unwrap();
    assert!(r.bezeichnung.is_none() && r.pal_menge.is_none() && r.lngbuendelung.is_none());
    assert!(!lookup.artikelbasis_unavailable);

    let r = lookup_artikel_info(&mut lookup, ArtikelQuery::Found(ArtikelRow {
            bezeichnung: Some("Sekt".to_string()),
            nummengeimlademittel: Some(50_000),
            lngbuendelung: Some(2),
        }))
        .unwrap();
    assert_eq!(r.bezeichnung.as_deref(), Some("Sekt"));
    assert_eq!(r.pal_menge, Some(100_000));
    assert!(!lookup.artikelbasis_unavailable);
}

#[test]
fn lookup_undefined_table_disables_further_queries() {
    let mut lookup = ArtikelLookup::new();
    assert!(lookup.needs_query(&Some("07418".to_string())));
    assert!(!lookup.needs_query(&None));
    let r = lookup_artikel_info(&mut lookup, ArtikelQuery::Failed {
            sqlstate: Some("42P01".to_string()),
            message: "relation \"m.artikelbasis\" does not exist".to_string(),
        })
        .unwrap();
    assert!(r.bezeichnung.is_none() && r.pal_menge.is_none() && r.lngbuendelung.is_none());
    assert!(lookup.artikelbasis_unavailable);
    assert!(!lookup.needs_query(&Some("07418".to_string())));
}

#[test]
fn answer_without_query_only_when_no_query_needed() {
    let mut lookup = ArtikelLookup::new();
    assert!(lookup.answer_without_query(&Some("07418".to_string())).is_none());
    let d = lookup.answer_without_query(&None).unwrap();
    assert!(d.bezeichnung.is_none() && d.pal_menge.is_none() && d.lngbuendelung.is_none());
    lookup.artikelbasis_unavailable = true;
    let d = lookup.answer_without_query(&Some("07418".to_string())).unwrap();
    assert!(d.bezeichnung.is_none() && d.pal_menge.is_none() && d.lngbuendelung.is_none());
    let _ = lookup_artikel_info(&mut lookup, ArtikelQuery::NotFound);
    assert!(lookup.artikelbasis_unavailable);
}

#[test]
fn lookup_other_errors_are_db_errors() {
    let mut lookup = ArtikelLookup::new();
    let r = lookup_artikel_info(&mut lookup, ArtikelQuery::Failed {
        sqlstate: Some("08006".to_string()),
        message: "connection failure".to_string(),
    });
    match r {
        Err(AppError::Db(m)) => assert_eq!(m, "connection failure"),
        _ => panic!("expected a db error"),
    }
    assert!(!lookup.artikelbasis_unavailable);
    let r = lookup_artikel_info(&mut lookup, ArtikelQuery::Failed {
        sqlstate: None,
        message: "pool timed out".to_string(),
    });
    assert!(matches!(r, Err(AppError::Db(m)) if m == "pool timed out"));
    assert!(!lookup.artikelbasis_unavailable);
}

#[test]
fn artikel_info_default_is_empty() {
    let d = ArtikelInfo::default();
    assert!(d.bezeichnung.is_none() && d.pal_menge.is_none() && d.lngbuendelung.is_none());
}

#[test]
fn mark_nothing_when_empty() {
    assert!(matches!(mark_pulled(&pg(false), &Vec::new()), MarkPlan::Nothing));
    assert!(matches!(mark_pulled(&pg(true), &Vec::new()), MarkPlan::Nothing));
}

#[test]
fn mark_read_only_skips_update() {
    let avise = vec![row("KA24/001723", 1), row("KA24/001723", 2)];
    match mark_pulled(&pg(true), &avise) {
        MarkPlan::SkipReadOnly { count } => assert_eq!(count, 2),
        other => panic!("unexpected plan {other:?}"),
    }
}

#[test]
fn mark_update_lists_rows_in_order() {
    let avise = vec![row("KA24/001723", 1), row("KA24/001800", 4)];
    match mark_pulled(&pg(false), &avise) {
        MarkPlan::Update { lngroot_id, lngprod_id, bestellnrs, positionsnrs } => {
            assert_eq!(lngroot_id, 7);
            assert_eq!(lngprod_id, 11);
            assert_eq!(bestellnrs, vec!["KA24/001723".to_string(), "KA24/001800".to_string()]);
            assert_eq!(positionsnrs, vec![1, 4]);
        }
        other => panic!("unexpected plan {other:?}"),
    }
}

#[test]
fn trim_bounds_and_whitespace() {
    assert_eq!(trim_bounds("  ab c \n"), (2, 6));
    assert_eq!(trim_bounds("   "), (3, 3));
    assert_eq!(trim_bounds(""), (0, 0));
    assert_eq!(trim_bounds("\u{2003}x"), (1, 2));
    for c in ['\t', '\n', '\u{b}', '\u{c}', '\r', ' ', '\u{85}', '\u{a0}', '\u{1680}', '\u{2000}',
              '\u{200a}', '\u{2028}', '\u{2029}', '\u{202f}', '\u{205f}', '\u{3000}'] {
        assert!(is_whitespace(c));
        assert_eq!(is_whitespace(c), c.is_whitespace());
    }
    for c in ['a', '0', '\u{180e}', '\u{200b}', '\u{feff}', '-'] {
        assert!(!is_whitespace(c));
        assert_eq!(is_whitespace(c), c.is_whitespace());
    }
}
