//! Regeln rund um die Legacy-Tabellen `io_oxaion.i_weavise` und
//! `m.artikelbasis`: Gebinde-Vorbelegung, Artikel-Anreicherung und
//! das Markieren verarbeiteter Avise.
use vstd::prelude::*;

use chrono::NaiveDate;

use crate::config::PostgresConfig;
use crate::error::{AppError, AppResult};
use crate::text::{trim, trim_bounds};

verus! {

/// Gebinde-Typ zu einer (bereits getrimmten) Mengeneinheit:
/// `FL` → `FLA`, `KT` → `KAR`, sonst die ersten drei Zeichen.
pub open spec fn gebinde_typ_for(einheit: Seq<char>) -> Seq<char> {
    if einheit == seq!['F', 'L'] {
        seq!['F', 'L', 'A']
    } else if einheit == seq!['K', 'T'] {
        seq!['K', 'A', 'R']
    } else {
        einheit.take(if einheit.len() < 3 { einheit.len() as int } else { 3 })
    }
}

/// Vorbelegung aus `strmengeneinheit`: Einheit trimmen, abbilden,
/// leeres Ergebnis wird `None`.
pub open spec fn spec_prefill_gebinde_typ(einheit: Option<Seq<char>>) -> Option<Seq<char>> {
    match einheit {
        None => None,
        Some(s) => {
            let g = gebinde_typ_for(trim(s));
            if g.len() == 0 {
                None
            } else {
                Some(g)
            }
        },
    }
}

/// Die Vorbelegung zur Mengeneinheit `einheit` mit getrimmter Form `u`:
/// nur `FL` wird `FLA` und nur `KT` wird `KAR`; jede andere Einheit behält
/// ihre ersten drei Zeichen (alle, wenn sie kürzer ist), leer ergibt
/// `None`. `FLA` bzw. `KAR` entsteht nur aus `FL` bzw. `KT` oder aus einer
/// Einheit, die selbst mit `FLA` bzw. `KAR` beginnt.
pub proof fn law_prefill(einheit: Seq<char>, r: Option<Seq<char>>)
    requires
        r == spec_prefill_gebinde_typ(Some(einheit)),
    ensures
        trim(einheit) == seq!['F', 'L'] ==> r == Some(seq!['F', 'L', 'A']),
        trim(einheit) == seq!['K', 'T'] ==> r == Some(seq!['K', 'A', 'R']),
        trim(einheit) != seq!['F', 'L'] && trim(einheit) != seq!['K', 'T'] ==> {
            let u = trim(einheit);
            &&& u.len() == 0 ==> r is None
            &&& 0 < u.len() < 3 ==> r == Some(u)
            &&& u.len() >= 3 ==> r == Some(u.subrange(0, 3))
        },
        r == Some(seq!['K', 'A', 'R']) ==> trim(einheit) == seq!['K', 'T'] || (trim(einheit).len()
            >= 3 && trim(einheit).subrange(0, 3) == seq!['K', 'A', 'R']),
        r == Some(seq!['F', 'L', 'A']) ==> trim(einheit) == seq!['F', 'L'] || (trim(einheit).len()
            >= 3 && trim(einheit).subrange(0, 3) == seq!['F', 'L', 'A']),
        r matches Some(g) ==> 0 < g.len() <= 3,
{
    let u = trim(einheit);
    if u.len() < 3 {
        assert(u.take(u.len() as int) =~= u);
    } else {
        assert(u.take(3) =~= u.subrange(0, 3));
    }
    if u.len() == 2 && u != seq!['K', 'T'] && u != seq!['F', 'L'] {
        if u == seq!['K', 'A', 'R'] || u == seq!['F', 'L', 'A'] {
            assert(u.len() == 3);
        }
    }
}

/// Gebinde-Typ-Vorbelegung aus `strmengeneinheit` (alte Lobster-Regel):
/// `FL` → `FLA`, `KT` → `KAR`, sonst erste 3 Zeichen unverändert.
pub fn prefill_gebinde_typ(strmengeneinheit: Option<&str>) -> (r: Option<String>)
    ensures
        r.deep_view() == spec_prefill_gebinde_typ(strmengeneinheit.deep_view()),
        strmengeneinheit is None ==> r is None,
        strmengeneinheit matches Some(s) ==> {
            let u = trim(s@);
            if u == seq!['F', 'L'] {
                r.deep_view() == Some(seq!['F', 'L', 'A'])
            } else if u == seq!['K', 'T'] {
                r.deep_view() == Some(seq!['K', 'A', 'R'])
            } else if u.len() == 0 {
                r is None
            } else if u.len() < 3 {
                r.deep_view() == Some(u)
            } else {
                r.deep_view() == Some(u.subrange(0, 3))
            }
        },
{
    match strmengeneinheit {
        None => None,
        Some(s) => {
            let (a, b) = trim_bounds(s);
            let ghost t = s@.subrange(a as int, b as int);
            let n = b - a;
            let g: String = if n == 2 && s.get_char(a) == 'F' && s.get_char(a + 1) == 'L' {
                proof {
                    assert(t =~= seq!['F', 'L']);
                }
                let lit = "FLA";
                proof {
                    reveal_strlit("FLA");
                }
                String::from_str(lit)
            } else if n == 2 && s.get_char(a) == 'K' && s.get_char(a + 1) == 'T' {
                proof {
                    assert(t =~= seq!['K', 'T']);
                }
                let lit = "KAR";
                proof {
                    reveal_strlit("KAR");
                }
                String::from_str(lit)
            } else {
                proof {
                    if n == 2 {
                        assert(t.len() == 2 && t[0] == s@[a as int] && t[1] == s@[a + 1]);
                        assert(t != seq!['F', 'L'] || (s@[a as int] == 'F' && s@[a + 1] == 'L'));
                    }
                }
                let end = if n < 3 { b } else { a + 3 };
                let part = s.substring_char(a, end);
                proof {
                    assert(part@ =~= t.take((end - a) as int));
                }
                String::from_str(part)
            };
            proof {
                assert(g@ == gebinde_typ_for(t));
            }
            if g.unicode_len() == 0 {
                None
            } else {
                Some(g)
            }
        },
    }
}

/// SQLSTATE `undefined_table`: die Tabelle `m.artikelbasis` fehlt.
pub const UNDEFINED_TABLE: &'static str = "42P01";

/// Eine Kopie eines optionalen Textes mit gleichem Inhalt.
pub fn clone_text(o: &Option<String>) -> (r: Option<String>)
    ensures
        r.deep_view() == o.deep_view(),
{
    match o {
        Some(s) => Some(s.clone()),
        None => None,
    }
}

/// Artikel-Stammdaten, die wir pro Avis-Zeile anreichern.
#[derive(Debug, Clone)]
pub struct ArtikelInfo {
    pub bezeichnung: Option<String>,
    /// `nummengeimlademittel × lngbuendelung` in Tausendsteln —
    /// Kapazität einer Vollpalette.
    pub pal_menge: Option<i128>,
    pub lngbuendelung: Option<i32>,
}

/// Mathematisches Abbild der Stammdaten; `pal_menge` in Tausendsteln.
pub struct ArtikelInfoView {
    pub bezeichnung: Option<Seq<char>>,
    pub pal_menge: Option<int>,
    pub lngbuendelung: Option<i32>,
}

/// Keine Stammdaten bekannt.
pub open spec fn no_artikel_info() -> ArtikelInfoView {
    ArtikelInfoView { bezeichnung: None, pal_menge: None, lngbuendelung: None }
}

impl View for ArtikelInfo {
    type V = ArtikelInfoView;

    open spec fn view(&self) -> ArtikelInfoView {
        ArtikelInfoView {
            bezeichnung: self.bezeichnung.deep_view(),
            pal_menge: match self.pal_menge {
                Some(p) => Some(p as int),
                None => None,
            },
            lngbuendelung: self.lngbuendelung,
        }
    }
}

impl Default for ArtikelInfo {
    fn default() -> (r: Self)
        ensures
            r@ == no_artikel_info(),
    {
        ArtikelInfo { bezeichnung: None, pal_menge: None, lngbuendelung: None }
    }
}

/// Eine Zeile aus `m.artikelbasis`: `RTRIM(strartikelbezeichnung1)`,
/// `nummengeimlademittel` (in Tausendsteln) und `lngbuendelung`.
#[derive(Debug, Clone)]
pub struct ArtikelRow {
    pub bezeichnung: Option<String>,
    pub nummengeimlademittel: Option<i64>,
    pub lngbuendelung: Option<i32>,
}

/// Paletten-Menge: nur wenn Menge und Bündelung beide positiv sind.
pub open spec fn spec_pal_menge(menge: Option<i64>, buendelung: Option<i32>) -> Option<int> {
    match menge {
        Some(m) => match buendelung {
            Some(b) => if m > 0 && b > 0 {
                Some(m * b)
            } else {
                None
            },
            None => None,
        },
        None => None,
    }
}

/// Die Anreicherung aus einer gefundenen `m.artikelbasis`-Zeile.
pub open spec fn spec_artikel_info(row: ArtikelRow) -> ArtikelInfoView {
    ArtikelInfoView {
        bezeichnung: match row.bezeichnung.deep_view() {
            Some(b) => if b.len() == 0 {
                None
            } else {
                Some(b)
            },
            None => None,
        },
        pal_menge: spec_pal_menge(row.nummengeimlademittel, row.lngbuendelung),
        lngbuendelung: match row.lngbuendelung {
            Some(b) => if b > 0 {
                Some(b)
            } else {
                None
            },
            None => None,
        },
    }
}

/// Stammdaten aus einer gefundenen `m.artikelbasis`-Zeile: leere
/// Bezeichnung fällt weg, Paletten-Menge nur bei positiver Menge und
/// Bündelung, Bündelung nur wenn positiv.
pub fn artikel_info_from_row(row: ArtikelRow) -> (info: ArtikelInfo)
    ensures
        info@ == spec_artikel_info(row),
        match row.nummengeimlademittel {
            Some(m) => match row.lngbuendelung {
                Some(b) => if m > 0 && b > 0 {
                    info.pal_menge matches Some(p) && p == m * b
                } else {
                    info.pal_menge is None
                },
                None => info.pal_menge is None,
            },
            None => info.pal_menge is None,
        },
        match row.lngbuendelung {
            Some(b) => if b > 0 {
                info.lngbuendelung == Some(b)
            } else {
                info.lngbuendelung is None
            },
            None => info.lngbuendelung is None,
        },
        match row.bezeichnung {
            Some(t) => if t@.len() > 0 {
                info.bezeichnung matches Some(u) && u@ == t@
            } else {
                info.bezeichnung is None
            },
            None => info.bezeichnung is None,
        },
{
    let ghost r = row;
    let bezeichnung = match row.bezeichnung {
        Some(b) => if b.unicode_len() == 0 {
            None
        } else {
            Some(b)
        },
        None => None,
    };
    let pal_menge: Option<i128> = match (row.nummengeimlademittel, row.lngbuendelung) {
        (Some(m), Some(b)) => if m > 0 && b > 0 {
            assert(0 < (m as int) * (b as int) <= 0x7fff_ffff_ffff_ffff * 0x7fff_ffff) by (nonlinear_arith)
                requires
                    0 < m <= 0x7fff_ffff_ffff_ffff,
                    0 < b <= 0x7fff_ffff,
            ;
            Some((m as i128) * (b as i128))
        } else {
            None
        },
        _ => None,
    };
    let lngbuendelung = match row.lngbuendelung {
        Some(b) => if b > 0 {
            Some(b)
        } else {
            None
        },
        None => None,
    };
    ArtikelInfo { bezeichnung, pal_menge, lngbuendelung }
}

/// Die Anreicherung aus einer gefundenen Zeile: die Paletten-Menge ist
/// genau dann `Some(m · b)`, wenn Menge `m` und Bündelung `b` vorhanden und
/// beide positiv sind; die Bündelung bleibt, wenn sie positiv ist; eine
/// Bezeichnung bleibt, wenn sie nicht leer ist.
pub proof fn law_artikel_enrichment(row: ArtikelRow, info: ArtikelInfoView)
    requires
        info == spec_artikel_info(row),
    ensures
        match row.nummengeimlademittel {
            Some(m) => match row.lngbuendelung {
                Some(b) => info.pal_menge == if m > 0 && b > 0 {
                    Some(m * b)
                } else {
                    None::<int>
                },
                None => info.pal_menge is None,
            },
            None => info.pal_menge is None,
        },
        info.pal_menge matches Some(p) ==> p > 0,
        info.lngbuendelung == match row.lngbuendelung {
            Some(b) => if b > 0 {
                Some(b)
            } else {
                None::<i32>
            },
            None => None::<i32>,
        },
        info.bezeichnung == match row.bezeichnung {
            Some(t) => if t@.len() > 0 {
                Some(t@)
            } else {
                None::<Seq<char>>
            },
            None => None::<Seq<char>>,
        },
{
    if let Some(p) = info.pal_menge {
        let m = row.nummengeimlademittel->0;
        let b = row.lngbuendelung->0;
        assert(m * b > 0) by (nonlinear_arith)
            requires
                m > 0,
                b > 0,
        ;
    }
}

/// Auswertung einer gefundenen Zeile: die Merk-Flagge bleibt, das Ergebnis
/// ist die Anreicherung dieser Zeile mit `m · b` als Paletten-Menge.
pub proof fn law_lookup_found(unavailable: bool, row: ArtikelRow, info: ArtikelInfoView)
    requires
        spec_lookup_artikel_info(unavailable, ArtikelQuery::Found(row)).1 == Ok::<
            ArtikelInfoView,
            Seq<char>,
        >(info),
    ensures
        spec_lookup_artikel_info(unavailable, ArtikelQuery::Found(row)).0 == unavailable,
        match row.nummengeimlademittel {
            Some(m) => match row.lngbuendelung {
                Some(b) => info.pal_menge == if m > 0 && b > 0 {
                    Some(m * b)
                } else {
                    None::<int>
                },
                None => info.pal_menge is None,
            },
            None => info.pal_menge is None,
        },
        info.lngbuendelung == match row.lngbuendelung {
            Some(b) => if b > 0 {
                Some(b)
            } else {
                None::<i32>
            },
            None => None::<i32>,
        },
{
    law_artikel_enrichment(row, info);
}

/// Ergebnis der Stammdaten-Abfrage in `m.artikelbasis`.
#[derive(Debug, Clone)]
pub enum ArtikelQuery {
    /// Keine Zeile zur Artikelnummer.
    NotFound,
    /// Die gefundene Zeile.
    Found(ArtikelRow),
    /// Die Abfrage schlug fehl; `sqlstate` ist der Code der Datenbank,
    /// falls sie einen geliefert hat.
    Failed { sqlstate: Option<String>, message: String },
}

/// Merkt sich, ob `m.artikelbasis` fehlt (typisch in Dev-Umgebungen,
/// in denen die Tabelle nicht kopiert wurde). Danach wird der Lookup
/// stumm übersprungen, statt die Logs zu fluten.
#[derive(Debug, Clone, Copy)]
pub struct ArtikelLookup {
    pub artikelbasis_unavailable: bool,
}

/// Auswertung einer Stammdaten-Abfrage: neuer Stand der Merk-Flagge und
/// die Anreicherung oder die Meldung des Datenbankfehlers.
pub open spec fn spec_lookup_artikel_info(unavailable: bool, outcome: ArtikelQuery) -> (
    bool,
    Result<ArtikelInfoView, Seq<char>>,
) {
    match outcome {
        ArtikelQuery::NotFound => (unavailable, Ok(no_artikel_info())),
        ArtikelQuery::Found(row) => (unavailable, Ok(spec_artikel_info(row))),
        ArtikelQuery::Failed { sqlstate, message } => if sqlstate.deep_view() == Some(
            UNDEFINED_TABLE@,
        ) {
            (true, Ok(no_artikel_info()))
        } else {
            (unavailable, Err(message@))
        },
    }
}

impl ArtikelLookup {
    /// Zu Beginn gilt die Tabelle als vorhanden.
    pub fn new() -> (l: Self)
        ensures
            !l.artikelbasis_unavailable,
    {
        ArtikelLookup { artikelbasis_unavailable: false }
    }

    /// Ob zu dieser Artikelnummer eine Abfrage nötig ist: nur mit
    /// Artikelnummer und solange die Tabelle nicht als fehlend gilt.
    pub open spec fn spec_needs_query(self, strartikelnr: Option<Seq<char>>) -> bool {
        strartikelnr is Some && !self.artikelbasis_unavailable
    }

    pub fn needs_query(&self, strartikelnr: &Option<String>) -> (r: bool)
        ensures
            r == self.spec_needs_query(strartikelnr.deep_view()),
    {
        strartikelnr.is_some() && !self.artikelbasis_unavailable
    }

    /// Die Stammdaten, wenn keine Abfrage nötig ist: ohne Artikelnummer
    /// oder bei fehlender Tabelle bleibt die Anreicherung leer, ohne dass
    /// gefragt wird. `None` heißt: die Datenbank muss gefragt werden.
    pub fn answer_without_query(&self, strartikelnr: &Option<String>) -> (r: Option<ArtikelInfo>)
        ensures
            r is None <==> self.spec_needs_query(strartikelnr.deep_view()),
            r matches Some(info) ==> info@ == no_artikel_info(),
    {
        if self.needs_query(strartikelnr) {
            None
        } else {
            Some(ArtikelInfo::default())
        }
    }
}

/// Wertet das Ergebnis der Stammdaten-Abfrage aus. Fehlt die Tabelle
/// (`42P01`), gilt sie ab jetzt als fehlend und die Anreicherung bleibt
/// leer; jeder andere Fehler ist ein Datenbankfehler.
pub fn lookup_artikel_info(lookup: &mut ArtikelLookup, outcome: ArtikelQuery) -> (r: AppResult<ArtikelInfo>)
    ensures
        final(lookup).artikelbasis_unavailable == spec_lookup_artikel_info(
            old(lookup).artikelbasis_unavailable,
            outcome,
        ).0,
        match r {
            Ok(info) => spec_lookup_artikel_info(
                old(lookup).artikelbasis_unavailable,
                outcome,
            ).1 == Ok::<ArtikelInfoView, Seq<char>>(info@),
            Err(AppError::Db(m)) => spec_lookup_artikel_info(
                old(lookup).artikelbasis_unavailable,
                outcome,
            ).1 == Err::<ArtikelInfoView, Seq<char>>(m@),
            Err(_) => false,
        },
        outcome is NotFound ==> {
            &&& r matches Ok(info) && info.bezeichnung is None && info.pal_menge is None
                && info.lngbuendelung is None
            &&& final(lookup).artikelbasis_unavailable == old(lookup).artikelbasis_unavailable
        },
        outcome matches ArtikelQuery::Found(row) ==> {
            &&& final(lookup).artikelbasis_unavailable == old(lookup).artikelbasis_unavailable
            &&& r matches Ok(info) && match row.nummengeimlademittel {
                Some(m) => match row.lngbuendelung {
                    Some(b) => if m > 0 && b > 0 {
                        info.pal_menge matches Some(p) && p == m * b
                    } else {
                        info.pal_menge is None
                    },
                    None => info.pal_menge is None,
                },
                None => info.pal_menge is None,
            }
        },
        old(lookup).artikelbasis_unavailable ==> final(lookup).artikelbasis_unavailable,
        outcome matches ArtikelQuery::Failed { sqlstate, message } ==> if sqlstate matches Some(c)
            && c@ == seq!['4', '2', 'P', '0', '1'] {
            &&& final(lookup).artikelbasis_unavailable
            &&& r matches Ok(info) && info.bezeichnung is None && info.pal_menge is None
                && info.lngbuendelung is None
        } else {
            &&& final(lookup).artikelbasis_unavailable == old(lookup).artikelbasis_unavailable
            &&& r matches Err(AppError::Db(m)) && m@ == message@
        },
{
    proof {
        reveal_strlit("42P01");
        assert(UNDEFINED_TABLE@ =~= seq!['4', '2', 'P', '0', '1']);
    }
    match outcome {
        ArtikelQuery::NotFound => Ok(ArtikelInfo::default()),
        ArtikelQuery::Found(row) => Ok(artikel_info_from_row(row)),
        ArtikelQuery::Failed { sqlstate, message } => {
            let undefined = match &sqlstate {
                Some(code) => *code == String::from_str(UNDEFINED_TABLE),
                None => false,
            };
            if undefined {
                lookup.artikelbasis_unavailable = true;
                Ok(ArtikelInfo::default())
            } else {
                Err(AppError::Db(message))
            }
        },
    }
}

/// Fehlt `m.artikelbasis` einmal, bleibt es dabei: keine Auswertung setzt
/// die Merk-Flagge zurück, und danach wird zu keiner Artikelnummer mehr
/// gefragt (die Anreicherung bleibt leer).
pub proof fn lemma_unavailable_is_sticky(
    lookup: ArtikelLookup,
    outcome: ArtikelQuery,
    strartikelnr: Option<Seq<char>>,
)
    requires
        lookup.artikelbasis_unavailable,
    ensures
        spec_lookup_artikel_info(lookup.artikelbasis_unavailable, outcome).0,
        !lookup.spec_needs_query(strartikelnr),
{
}

/// Eine Zeile aus `i_weavise`, wie wir sie nach Postgres-RTRIM-Handling
/// weiterverarbeiten. Mengen in Tausendsteln.
#[derive(Debug, Clone)]
pub struct AviseRow {
    pub strbestellnr: String,
    pub lngpositionsnr: i64,
    pub strartikelnr: Option<String>,
    pub nummenge_bestellt: Option<i64>,
    pub strmengeneinheit: Option<String>,
    pub strjahrgang: Option<String>,
    pub strlieferantennr: Option<String>,
    pub strlieferantenfilialnr: Option<String>,
    pub strtransportauftragsnr: Option<String>,
    pub strlagerkennzeichen: Option<String>,
    pub dtmbestelldatum: Option<NaiveDate>,
    pub dtmliefertermin: Option<NaiveDate>,
}

/// Was `mark_pulled` in der Datenbank tut.
#[derive(Debug)]
pub enum MarkPlan {
    /// Nichts zu markieren.
    Nothing,
    /// `read_only` ist gesetzt: der UPDATE entfällt (mit Warnung über
    /// `count` Avise).
    SkipReadOnly { count: usize },
    /// `UPDATE io_oxaion.i_weavise SET strlocked = 'N'` für die Zeilen mit
    /// diesen Mandanten-Ids, deren Paar (Bestellnummer, Positionsnummer)
    /// eines der Paare `(bestellnrs[i], positionsnrs[i])` ist (siehe
    /// `update_keys`); andere Kombinationen der beiden Listen bleiben
    /// unberührt.
    Update { lngroot_id: i32, lngprod_id: i32, bestellnrs: Vec<String>, positionsnrs: Vec<i32> },
}

/// Schlüssel eines Avis in `i_weavise`: Bestellnummer und Positionsnummer
/// (als `int4`, wie die Spalte `lngpositionsnr`).
pub open spec fn avise_key(r: AviseRow) -> (Seq<char>, i32) {
    (r.strbestellnr@, r.lngpositionsnr as i32)
}

/// Die Schlüsselpaare, die ein `Update` markiert: je ein Paar aus
/// gleicher Position beider Listen.
pub open spec fn update_keys(bestellnrs: Seq<String>, positionsnrs: Seq<i32>) -> Seq<(Seq<char>, i32)> {
    Seq::new(bestellnrs.len(), |i: int| (bestellnrs[i]@, positionsnrs[i]))
}

/// `plan` markiert genau die Avise `avise` unter der Konfiguration `cfg`:
/// beim `Update` sind die markierten Schlüsselpaare genau die der Avise,
/// in ihrer Reihenfolge.
pub open spec fn marks(plan: MarkPlan, cfg: PostgresConfig, avise: Seq<AviseRow>) -> bool {
    if avise.len() == 0 {
        plan is Nothing
    } else if cfg.read_only {
        plan matches MarkPlan::SkipReadOnly { count } && count == avise.len()
    } else {
        plan matches MarkPlan::Update { lngroot_id, lngprod_id, bestellnrs, positionsnrs }
            && lngroot_id == cfg.lngroot_id && lngprod_id == cfg.lngprod_id
            && positionsnrs.len() == bestellnrs.len() && update_keys(bestellnrs@, positionsnrs@)
            == avise.map_values(|r: AviseRow| avise_key(r))
    }
}

/// Bei `read_only` wird nie ein UPDATE geplant.
pub proof fn lemma_read_only_never_updates(plan: MarkPlan, cfg: PostgresConfig, avise: Seq<AviseRow>)
    requires
        marks(plan, cfg, avise),
        cfg.read_only,
    ensures
        !(plan is Update),
{
}

/// Eine Vorbelegung ist nie leer und höchstens drei Zeichen lang.
pub proof fn lemma_prefill_short(einheit: Option<Seq<char>>)
    ensures
        spec_prefill_gebinde_typ(einheit) matches Some(g) ==> 0 < g.len() <= 3,
{
}

/// Markiert die übergebenen Avise als verarbeitet (`strlocked='N'`).
/// Bei `cfg.read_only == true` passiert nichts.
pub fn mark_pulled(cfg: &PostgresConfig, avise: &Vec<AviseRow>) -> (plan: MarkPlan)
    ensures
        marks(plan, *cfg, avise@),
        avise.len() == 0 ==> plan is Nothing,
        avise.len() > 0 && cfg.read_only ==> (plan matches MarkPlan::SkipReadOnly { count }
            && count == avise.len()),
        avise.len() > 0 && !cfg.read_only ==> (plan matches MarkPlan::Update {
            lngroot_id,
            lngprod_id,
            bestellnrs,
            positionsnrs,
        } && lngroot_id == cfg.lngroot_id && lngprod_id == cfg.lngprod_id && bestellnrs.len()
            == avise.len() && positionsnrs.len() == avise.len() && (forall|i: int|
            0 <= i < avise.len() ==> #[trigger] bestellnrs@[i]@ == avise@[i].strbestellnr@) && (
        forall|i: int|
            0 <= i < avise.len() ==> #[trigger] positionsnrs@[i] == avise@[i].lngpositionsnr as i32)),
{
    if avise.len() == 0 {
        return MarkPlan::Nothing;
    }
    if cfg.read_only {
        return MarkPlan::SkipReadOnly { count: avise.len() };
    }
    let mut bestellnrs: Vec<String> = Vec::new();
    let mut positionsnrs: Vec<i32> = Vec::new();
    let mut i: usize = 0;
    while i < avise.len()
        invariant
            i <= avise.len(),
            bestellnrs.len() == i,
            positionsnrs.len() == i,
            forall|j: int| 0 <= j < i ==> #[trigger] bestellnrs@[j]@ == avise@[j].strbestellnr@,
            forall|j: int|
                0 <= j < i ==> #[trigger] positionsnrs@[j] == avise@[j].lngpositionsnr as i32,
        decreases avise.len() - i,
    {
        bestellnrs.push(avise[i].strbestellnr.clone());
        let p: i32 = #[verifier::truncate] (avise[i].lngpositionsnr as i32);
        positionsnrs.push(p);
        i = i + 1;
    }
    proof {
        assert forall|j: int| 0 <= j < avise.len() implies #[trigger] positionsnrs@[j]
            == avise@[j].lngpositionsnr as i32 by {}
        assert(update_keys(bestellnrs@, positionsnrs@) =~= avise@.map_values(
            |r: AviseRow| avise_key(r),
        ));
    }
    MarkPlan::Update {
        lngroot_id: cfg.lngroot_id,
        lngprod_id: cfg.lngprod_id,
        bestellnrs,
        positionsnrs,
    }
}

} // verus!
