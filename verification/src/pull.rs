//! Die eigentliche Pull-Logik: fetch → enrich → publish → mark, als
//! Zustandsmaschine. Das Programm führt jede Aktion aus (Datenbank,
//! Publish) und meldet das Ergebnis als Ereignis zurück.
//!
//! Wichtig für die Reihenfolge: wir markieren die Avise erst als
//! verarbeitet, **nachdem** alle Publishes für den Batch durch sind, und
//! nur die, deren Publish bestätigt wurde. Scheitert die Stammdaten-Abfrage
//! einer Zeile, wird ab ihr nichts mehr publiziert; die bis dahin
//! bestätigten Zeilen werden noch markiert, dann endet der Lauf mit dem
//! Fehler. Fällt der Prozess zwischendurch
//! aus, gehen beim nächsten Lauf dieselben Zeilen nochmal raus — der
//! Consumer ist idempotent.
use vstd::prelude::*;

use crate::config::PostgresConfig;
use crate::db::{
    clone_text, lookup_artikel_info, mark_pulled, marks, no_artikel_info, prefill_gebinde_typ,
    spec_lookup_artikel_info, spec_prefill_gebinde_typ, ArtikelInfo, ArtikelInfoView,
    ArtikelLookup, ArtikelQuery, AviseRow, MarkPlan,
};
use crate::envelope::AviseData;
use crate::error::{AppError, AppResult};

verus! {

/// `d` ist die Payload zur Avis-Zeile `row` mit den Stammdaten `info` und
/// der Gebinde-Vorbelegung `prefill`.
pub open spec fn avise_data_of(
    d: AviseData,
    row: AviseRow,
    info: ArtikelInfoView,
    prefill: Option<Seq<char>>,
) -> bool {
    &&& d.bestellnr@ == row.strbestellnr@
    &&& d.position_nr == row.lngpositionsnr
    &&& d.ta_nummer.deep_view() == row.strtransportauftragsnr.deep_view()
    &&& d.artikelnr@ == match row.strartikelnr.deep_view() {
        Some(a) => a,
        None => Seq::<char>::empty(),
    }
    &&& d.artikel_bezeichnung.deep_view() == info.bezeichnung
    &&& d.menge_bestellt == match row.nummenge_bestellt {
        Some(m) => m,
        None => 0,
    }
    &&& match d.pal_menge {
        Some(p) => info.pal_menge == Some(p as int),
        None => info.pal_menge is None,
    }
    &&& d.lngbuendelung == info.lngbuendelung
    &&& d.mengeneinheit.deep_view() == row.strmengeneinheit.deep_view()
    &&& d.lieferantennr.deep_view() == row.strlieferantennr.deep_view()
    &&& d.lieferantenfilialnr.deep_view() == row.strlieferantenfilialnr.deep_view()
    &&& d.lagerkennzeichen.deep_view() == row.strlagerkennzeichen.deep_view()
    &&& d.bestelldatum == row.dtmbestelldatum
    &&& d.liefertermin == row.dtmliefertermin
    &&& d.jahrgang.deep_view() == row.strjahrgang.deep_view()
    &&& d.gebinde_typ_prefill.deep_view() == prefill
}

/// Jedes Feld der Payload stammt aus der Spalte der Avis-Zeile mit gleicher
/// Bedeutung (Bestelldatum aus `dtmbestelldatum`, Liefertermin aus
/// `dtmliefertermin`, …), die Stammdaten-Felder aus `info`; ohne
/// Artikelnummer ist sie leer, ohne Menge `0`.
pub proof fn law_payload_fields(
    d: AviseData,
    row: AviseRow,
    info: ArtikelInfoView,
    prefill: Option<Seq<char>>,
)
    requires
        avise_data_of(d, row, info, prefill),
    ensures
        d.bestellnr@ == row.strbestellnr@,
        d.position_nr == row.lngpositionsnr,
        d.ta_nummer.deep_view() == row.strtransportauftragsnr.deep_view(),
        row.strartikelnr matches Some(a) ==> d.artikelnr@ == a@,
        row.strartikelnr is None ==> d.artikelnr@.len() == 0,
        d.artikel_bezeichnung.deep_view() == info.bezeichnung,
        row.nummenge_bestellt matches Some(m) ==> d.menge_bestellt == m,
        row.nummenge_bestellt is None ==> d.menge_bestellt == 0,
        match d.pal_menge {
            Some(p) => info.pal_menge == Some(p as int),
            None => info.pal_menge is None,
        },
        d.lngbuendelung == info.lngbuendelung,
        d.mengeneinheit.deep_view() == row.strmengeneinheit.deep_view(),
        d.lieferantennr.deep_view() == row.strlieferantennr.deep_view(),
        d.lieferantenfilialnr.deep_view() == row.strlieferantenfilialnr.deep_view(),
        d.lagerkennzeichen.deep_view() == row.strlagerkennzeichen.deep_view(),
        d.bestelldatum == row.dtmbestelldatum,
        d.liefertermin == row.dtmliefertermin,
        d.jahrgang.deep_view() == row.strjahrgang.deep_view(),
        d.gebinde_typ_prefill.deep_view() == prefill,
{
}

/// Die Payload, die zu `row` mit den Stammdaten `info` publiziert wird.
pub open spec fn publishes(d: AviseData, row: AviseRow, info: ArtikelInfoView) -> bool {
    avise_data_of(d, row, info, spec_prefill_gebinde_typ(row.strmengeneinheit.deep_view()))
}

/// Baut die Event-Payload aus Avis-Zeile, Stammdaten und Vorbelegung;
/// ohne Artikelnummer wird sie leer, ohne Menge `0`.
pub fn to_avise_data(row: &AviseRow, info: &ArtikelInfo, gebinde_typ_prefill: Option<String>) -> (d:
    AviseData)
    ensures
        avise_data_of(d, *row, info@, gebinde_typ_prefill.deep_view()),
        d.bestellnr@ == row.strbestellnr@,
        d.position_nr == row.lngpositionsnr,
        d.ta_nummer.deep_view() == row.strtransportauftragsnr.deep_view(),
        row.strartikelnr matches Some(a) ==> d.artikelnr@ == a@,
        row.strartikelnr is None ==> d.artikelnr@.len() == 0,
        d.artikel_bezeichnung.deep_view() == info.bezeichnung.deep_view(),
        row.nummenge_bestellt matches Some(m) ==> d.menge_bestellt == m,
        row.nummenge_bestellt is None ==> d.menge_bestellt == 0,
        d.pal_menge == info.pal_menge,
        d.lngbuendelung == info.lngbuendelung,
        d.mengeneinheit.deep_view() == row.strmengeneinheit.deep_view(),
        d.lieferantennr.deep_view() == row.strlieferantennr.deep_view(),
        d.lieferantenfilialnr.deep_view() == row.strlieferantenfilialnr.deep_view(),
        d.lagerkennzeichen.deep_view() == row.strlagerkennzeichen.deep_view(),
        d.bestelldatum == row.dtmbestelldatum,
        d.liefertermin == row.dtmliefertermin,
        d.jahrgang.deep_view() == row.strjahrgang.deep_view(),
        d.gebinde_typ_prefill.deep_view() == gebinde_typ_prefill.deep_view(),
{
    let artikelnr = match &row.strartikelnr {
        Some(a) => a.clone(),
        None => String::new(),
    };
    let menge_bestellt: i64 = match row.nummenge_bestellt {
        Some(m) => m,
        None => 0,
    };
    AviseData {
        bestellnr: row.strbestellnr.clone(),
        position_nr: row.lngpositionsnr,
        ta_nummer: clone_text(&row.strtransportauftragsnr),
        artikelnr,
        artikel_bezeichnung: clone_text(&info.bezeichnung),
        menge_bestellt,
        pal_menge: info.pal_menge,
        lngbuendelung: info.lngbuendelung,
        mengeneinheit: clone_text(&row.strmengeneinheit),
        lieferantennr: clone_text(&row.strlieferantennr),
        lieferantenfilialnr: clone_text(&row.strlieferantenfilialnr),
        lagerkennzeichen: clone_text(&row.strlagerkennzeichen),
        bestelldatum: row.dtmbestelldatum,
        liefertermin: row.dtmliefertermin,
        jahrgang: clone_text(&row.strjahrgang),
        gebinde_typ_prefill,
    }
}

/// Die Zeilen aus `rows`, deren Publish laut `ok` bestätigt wurde, in
/// ihrer Reihenfolge (`ok[i]` gehört zu `rows[i]`).
pub open spec fn successful(rows: Seq<AviseRow>, ok: Seq<bool>) -> Seq<AviseRow>
    decreases ok.len(),
{
    if ok.len() == 0 {
        Seq::empty()
    } else {
        let prev = successful(rows, ok.drop_last());
        if ok.last() {
            prev.push(rows[ok.len() - 1])
        } else {
            prev
        }
    }
}

/// Anzahl der bestätigten Publishes.
pub open spec fn count_ok(ok: Seq<bool>) -> nat
    decreases ok.len(),
{
    if ok.len() == 0 {
        0
    } else {
        count_ok(ok.drop_last()) + if ok.last() {
            1nat
        } else {
            0nat
        }
    }
}

/// `x` ist eine Zeile aus `rows`, deren Publish laut `ok` bestätigt wurde.
pub open spec fn confirmed(rows: Seq<AviseRow>, ok: Seq<bool>, x: AviseRow) -> bool {
    exists|j: int| 0 <= j < ok.len() && ok[j] && rows[j] == x
}

/// Markiert werden genau die Zeilen mit bestätigtem Publish: jede Zeile
/// in `successful(rows, ok)` ist eine Zeile `rows[j]` mit `ok[j]`, jede
/// solche Zeile ist darin, und ihre Anzahl ist die Zahl der bestätigten
/// Publishes.
pub proof fn lemma_successful_are_published(rows: Seq<AviseRow>, ok: Seq<bool>)
    requires
        ok.len() <= rows.len(),
    ensures
        successful(rows, ok).len() == count_ok(ok),
        forall|i: int|
            0 <= i < successful(rows, ok).len() ==> confirmed(
                rows,
                ok,
                #[trigger] successful(rows, ok)[i],
            ),
        forall|j: int| 0 <= j < ok.len() && #[trigger] ok[j] ==> successful(rows, ok).contains(rows[j]),
    decreases ok.len(),
{
    if ok.len() > 0 {
        let prev = ok.drop_last();
        lemma_successful_are_published(rows, prev);
        assert forall|i: int| 0 <= i < successful(rows, ok).len() implies confirmed(
            rows,
            ok,
            #[trigger] successful(rows, ok)[i],
        ) by {
            if i < successful(rows, prev).len() {
                assert(successful(rows, ok)[i] == successful(rows, prev)[i]);
                assert(confirmed(rows, prev, successful(rows, prev)[i]));
                let j = choose|j: int|
                    0 <= j < prev.len() && prev[j] && rows[j] == successful(rows, prev)[i];
                assert(ok[j] == prev[j]);
            } else {
                let j = ok.len() - 1;
                assert(ok[j] && successful(rows, ok)[i] == rows[j]);
            }
        }
        assert forall|j: int| 0 <= j < ok.len() && #[trigger] ok[j] implies successful(
            rows,
            ok,
        ).contains(rows[j]) by {
            if j < prev.len() {
                assert(prev[j] == ok[j]);
                assert(successful(rows, prev).contains(rows[j]));
                let k = choose|k: int|
                    0 <= k < successful(rows, prev).len() && successful(rows, prev)[k] == rows[j];
                assert(successful(rows, ok)[k] == successful(rows, prev)[k]);
            } else {
                assert(successful(rows, ok)[successful(rows, ok).len() - 1] == rows[j]);
            }
        }
    }
}

/// Was die Maschine vom Programm verlangt.
pub enum PullAction {
    /// Offene Avise lesen (`strvalid='Y' AND strlocked='T'`) mit diesen
    /// Mandanten-Ids.
    Fetch { lngroot_id: i32, lngprod_id: i32 },
    /// Stammdaten dieser Artikelnummer in `m.artikelbasis` abfragen.
    QueryArtikel { artikelnr: String },
    /// Diese Payload als Event publizieren.
    Publish { data: AviseData },
    /// Die Markierung in der Datenbank ausführen.
    Mark { plan: MarkPlan },
    /// Der Lauf ist beendet: Anzahl publizierter Avise oder Fehler.
    Finished { result: AppResult<usize> },
}

/// Was das Programm nach einer Aktion zurückmeldet.
pub enum PullEvent {
    /// Die gelesenen offenen Avise.
    Fetched { rows: Vec<AviseRow> },
    /// Lesen schlug fehl.
    FetchFailed { message: String },
    /// Ergebnis der Stammdaten-Abfrage.
    ArtikelQueried { outcome: ArtikelQuery },
    /// Publish bestätigt.
    Published,
    /// Publish fehlgeschlagen; die Zeile wird beim nächsten Lauf erneut
    /// versucht.
    PublishFailed,
    /// Markierung ausgeführt.
    Marked,
    /// Markierung schlug fehl.
    MarkFailed { message: String },
}

/// Wo ein Lauf steht.
#[derive(PartialEq, Eq, Structural, Clone, Copy, Debug)]
pub enum PullPhase {
    /// Wartet auf die gelesenen Avise.
    Fetching,
    /// Wartet auf die Stammdaten zur aktuellen Zeile.
    Querying,
    /// Wartet auf das Publish-Ergebnis der aktuellen Zeile.
    Publishing,
    /// Wartet auf das Ergebnis der Markierung.
    Marking,
    /// Lauf beendet.
    Finished,
}

/// Ob `e` das Ereignis ist, auf das die Phase `p` wartet.
pub open spec fn expects(p: PullPhase, e: PullEvent) -> bool {
    match p {
        PullPhase::Fetching => e is Fetched || e is FetchFailed,
        PullPhase::Querying => e is ArtikelQueried,
        PullPhase::Publishing => e is Published || e is PublishFailed,
        PullPhase::Marking => e is Marked || e is MarkFailed,
        PullPhase::Finished => false,
    }
}

/// Ein Lauf über einen Batch offener Avise.
pub struct PullRun {
    cfg: PostgresConfig,
    lookup: ArtikelLookup,
    phase: PullPhase,
    /// Noch nicht begonnene Zeilen, in Reihenfolge.
    pending: Vec<AviseRow>,
    /// Die Zeile in Arbeit (Phasen `Querying` und `Publishing`).
    current: Option<AviseRow>,
    /// Die Zeilen mit bestätigtem Publish, in Reihenfolge.
    published: Vec<AviseRow>,
    /// Der gelesene Batch.
    rows: Ghost<Seq<AviseRow>>,
    /// Publish-Ergebnis je abgeschlossener Zeile.
    outcomes: Ghost<Seq<bool>>,
    /// Meldung des Stammdaten-Fehlers, der den Lauf abbricht: die schon
    /// publizierten Zeilen werden noch markiert, dann endet der Lauf mit
    /// diesem Fehler.
    abort: Option<String>,
}

impl PullRun {
    pub closed spec fn cfg(self) -> PostgresConfig {
        self.cfg
    }

    pub closed spec fn lookup(self) -> ArtikelLookup {
        self.lookup
    }

    pub closed spec fn phase(self) -> PullPhase {
        self.phase
    }

    /// Der gelesene Batch (leer, solange noch nicht gelesen ist).
    pub closed spec fn rows(self) -> Seq<AviseRow> {
        self.rows@
    }

    /// Publish-Ergebnisse der abgeschlossenen Zeilen, in Reihenfolge.
    pub closed spec fn outcomes(self) -> Seq<bool> {
        self.outcomes@
    }

    /// Der Stammdaten-Fehler, mit dem der Lauf nach der Markierung endet.
    pub closed spec fn aborted(self) -> Option<Seq<char>> {
        self.abort.deep_view()
    }

    /// Index der Zeile in Arbeit.
    pub open spec fn index(self) -> int {
        self.outcomes().len() as int
    }

    pub closed spec fn wf(self) -> bool {
        &&& self.outcomes@.len() <= self.rows@.len()
        &&& self.published@ == successful(self.rows@, self.outcomes@)
        &&& (self.abort is Some ==> self.phase == PullPhase::Marking || self.phase
            == PullPhase::Finished)
        &&& match self.phase {
            PullPhase::Fetching => {
                &&& self.rows@.len() == 0
                &&& self.pending@.len() == 0
                &&& self.current is None
            },
            PullPhase::Querying | PullPhase::Publishing => {
                &&& self.outcomes@.len() < self.rows@.len()
                &&& self.current == Some(self.rows@[self.outcomes@.len() as int])
                &&& self.pending@ == self.rows@.skip(self.outcomes@.len() as int + 1)
            },
            PullPhase::Marking => {
                &&& (self.abort is None ==> self.outcomes@.len() == self.rows@.len())
                &&& self.pending@.len() == 0
                &&& self.current is None
            },
            PullPhase::Finished => true,
        }
    }

    /// Beginn der Zeile `index()`: Stammdaten abfragen, wenn nötig, sonst
    /// gleich ohne Stammdaten publizieren.
    pub open spec fn begins_row(self, a: PullAction) -> bool {
        let row = self.rows()[self.index()];
        &&& self.aborted() is None
        &&& if self.lookup().spec_needs_query(row.strartikelnr.deep_view()) {
            &&& self.phase() == PullPhase::Querying
            &&& a matches PullAction::QueryArtikel { artikelnr } && Some(artikelnr@)
                == row.strartikelnr.deep_view()
        } else {
            &&& self.phase() == PullPhase::Publishing
            &&& a matches PullAction::Publish { data } && publishes(data, row, no_artikel_info())
        }
    }

    /// Nach einer abgeschlossenen Zeile: die nächste beginnen, oder nach der
    /// letzten die bestätigten Zeilen markieren.
    pub open spec fn continues(self, a: PullAction) -> bool {
        if self.index() < self.rows().len() {
            self.begins_row(a)
        } else {
            &&& self.phase() == PullPhase::Marking
            &&& self.aborted() is None
            &&& a matches PullAction::Mark { plan } && marks(
                plan,
                self.cfg(),
                successful(self.rows(), self.outcomes()),
            )
        }
    }

    /// Der Lauf endet mit dem Datenbankfehler `message`.
    pub open spec fn fails_with(self, a: PullAction, message: Seq<char>) -> bool {
        &&& self.phase() == PullPhase::Finished
        &&& a matches PullAction::Finished { result } && result matches Err(AppError::Db(m))
            && m@ == message
    }

    /// Markiert wird erst, wenn für jede Zeile des Batches ein
    /// Publish-Ergebnis vorliegt, oder wenn ein Stammdaten-Fehler den Lauf
    /// abbricht (dann werden die übrigen Zeilen nicht mehr publiziert).
    pub proof fn lemma_mark_after_all_publishes(self)
        requires
            self.wf(),
            self.phase() == PullPhase::Marking,
        ensures
            self.aborted() is None ==> self.outcomes().len() == self.rows().len(),
            self.outcomes().len() <= self.rows().len(),
    {
    }

    /// Gilt `m.artikelbasis` als fehlend, wird keine Stammdaten-Abfrage
    /// mehr gestellt: die Zeile geht gleich ohne Stammdaten ins Publish.
    pub proof fn lemma_no_query_once_unavailable(self, a: PullAction)
        requires
            self.begins_row(a),
            self.lookup().artikelbasis_unavailable,
        ensures
            !(a is QueryArtikel),
            a matches PullAction::Publish { data } && publishes(
                data,
                self.rows()[self.index()],
                no_artikel_info(),
            ),
    {
    }

    /// Startet einen Lauf: zuerst die offenen Avise lesen.
    pub fn start(cfg: PostgresConfig, lookup: ArtikelLookup) -> (r: (PullRun, PullAction))
        ensures
            r.0.wf(),
            r.0.phase() == PullPhase::Fetching,
            r.0.cfg() == cfg,
            r.0.lookup() == lookup,
            r.0.rows().len() == 0,
            r.0.outcomes().len() == 0,
            r.0.aborted() is None,
            r.1 == (PullAction::Fetch { lngroot_id: cfg.lngroot_id, lngprod_id: cfg.lngprod_id }),
    {
        let a = PullAction::Fetch { lngroot_id: cfg.lngroot_id, lngprod_id: cfg.lngprod_id };
        let run = PullRun {
            cfg,
            lookup,
            phase: PullPhase::Fetching,
            pending: Vec::new(),
            current: None,
            published: Vec::new(),
            rows: Ghost(Seq::empty()),
            outcomes: Ghost(Seq::empty()),
            abort: None,
        };
        (run, a)
    }

    pub fn phase_now(&self) -> (p: PullPhase)
        ensures
            p == self.phase(),
    {
        self.phase
    }

    /// Der Stand der Stammdaten-Merkflagge, für den nächsten Lauf.
    pub fn artikel_lookup(&self) -> (l: ArtikelLookup)
        ensures
            l == self.lookup(),
    {
        self.lookup
    }

    /// Ob die Maschine in ihrer Phase auf dieses Ereignis wartet.
    pub fn accepts(&self, e: &PullEvent) -> (r: bool)
        ensures
            r == expects(self.phase(), *e),
    {
        match self.phase {
            PullPhase::Fetching => match e {
                PullEvent::Fetched { .. } | PullEvent::FetchFailed { .. } => true,
                _ => false,
            },
            PullPhase::Querying => match e {
                PullEvent::ArtikelQueried { .. } => true,
                _ => false,
            },
            PullPhase::Publishing => match e {
                PullEvent::Published | PullEvent::PublishFailed => true,
                _ => false,
            },
            PullPhase::Marking => match e {
                PullEvent::Marked | PullEvent::MarkFailed { .. } => true,
                _ => false,
            },
            PullPhase::Finished => false,
        }
    }

    /// Beginnt die Zeile `row` (= `rows()[index()]`).
    fn begin_row(&mut self, row: AviseRow) -> (a: PullAction)
        requires
            old(self).outcomes@.len() < old(self).rows@.len(),
            row == old(self).rows@[old(self).outcomes@.len() as int],
            old(self).abort is None,
        ensures
            final(self).begins_row(a),
            final(self).current == Some(row),
            final(self).cfg == old(self).cfg,
            final(self).lookup == old(self).lookup,
            final(self).pending == old(self).pending,
            final(self).published == old(self).published,
            final(self).rows == old(self).rows,
            final(self).outcomes == old(self).outcomes,
            final(self).abort == old(self).abort,
    {
        match self.lookup.answer_without_query(&row.strartikelnr) {
            None => {
                let artikelnr = match &row.strartikelnr {
                    Some(a) => a.clone(),
                    None => String::new(),
                };
                self.phase = PullPhase::Querying;
                self.current = Some(row);
                PullAction::QueryArtikel { artikelnr }
            },
            Some(info) => {
                let data = self.publish_data(&row, &info);
                self.phase = PullPhase::Publishing;
                self.current = Some(row);
                PullAction::Publish { data }
            },
        }
    }

    fn publish_data(&self, row: &AviseRow, info: &ArtikelInfo) -> (d: AviseData)
        ensures
            publishes(d, *row, info@),
    {
        let einheit: Option<&str> = match &row.strmengeneinheit {
            Some(s) => Some(s.as_str()),
            None => None,
        };
        let prefill = prefill_gebinde_typ(einheit);
        to_avise_data(row, info, prefill)
    }

    /// Nach einer abgeschlossenen Zeile weiter.
    fn advance(&mut self) -> (a: PullAction)
        requires
            old(self).outcomes@.len() <= old(self).rows@.len(),
            old(self).published@ == successful(old(self).rows@, old(self).outcomes@),
            old(self).pending@ == old(self).rows@.skip(old(self).outcomes@.len() as int),
            old(self).current is None,
            old(self).abort is None,
        ensures
            final(self).wf(),
            final(self).continues(a),
            final(self).cfg == old(self).cfg,
            final(self).lookup == old(self).lookup,
            final(self).rows == old(self).rows,
            final(self).outcomes == old(self).outcomes,
            final(self).abort is None,
    {
        if self.pending.len() > 0 {
            let row = self.pending.remove(0);
            proof {
                assert(self.pending@ =~= self.rows@.skip(self.outcomes@.len() as int + 1));
            }
            self.begin_row(row)
        } else {
            let plan = mark_pulled(&self.cfg, &self.published);
            self.phase = PullPhase::Marking;
            PullAction::Mark { plan }
        }
    }

    /// Verarbeitet ein Ereignis und gibt die nächste Aktion.
    pub fn step(&mut self, e: PullEvent) -> (a: PullAction)
        requires
            old(self).wf(),
            expects(old(self).phase(), e),
        ensures
            final(self).wf(),
            final(self).cfg() == old(self).cfg(),
            old(self).lookup().artikelbasis_unavailable ==> final(self).lookup().artikelbasis_unavailable,
            match e {
                PullEvent::Fetched { rows } => {
                    &&& final(self).rows() == rows@
                    &&& final(self).outcomes().len() == 0
                    &&& final(self).lookup() == old(self).lookup()
                    &&& if rows@.len() == 0 {
                        &&& final(self).phase() == PullPhase::Finished
                        &&& a == (PullAction::Finished { result: Ok(0) })
                    } else {
                        final(self).begins_row(a)
                    }
                },
                PullEvent::FetchFailed { message } => {
                    &&& final(self).rows() == old(self).rows()
                    &&& final(self).outcomes() == old(self).outcomes()
                    &&& final(self).lookup() == old(self).lookup()
                    &&& final(self).fails_with(a, message@)
                },
                PullEvent::ArtikelQueried { outcome } => {
                    let row = old(self).rows()[old(self).index()];
                    let r = spec_lookup_artikel_info(
                        old(self).lookup().artikelbasis_unavailable,
                        outcome,
                    );
                    &&& final(self).rows() == old(self).rows()
                    &&& final(self).outcomes() == old(self).outcomes()
                    &&& final(self).lookup().artikelbasis_unavailable == r.0
                    &&& match r.1 {
                        Ok(info) => {
                            &&& final(self).phase() == PullPhase::Publishing
                            &&& final(self).aborted() is None
                            &&& a matches PullAction::Publish { data } && publishes(data, row, info)
                        },
                        Err(message) => {
                            &&& final(self).phase() == PullPhase::Marking
                            &&& final(self).aborted() == Some(message)
                            &&& a matches PullAction::Mark { plan } && marks(
                                plan,
                                old(self).cfg(),
                                successful(old(self).rows(), old(self).outcomes()),
                            )
                        },
                    }
                },
                PullEvent::Published => {
                    &&& final(self).rows() == old(self).rows()
                    &&& final(self).outcomes() == old(self).outcomes().push(true)
                    &&& final(self).lookup() == old(self).lookup()
                    &&& final(self).continues(a)
                },
                PullEvent::PublishFailed => {
                    &&& final(self).rows() == old(self).rows()
                    &&& final(self).outcomes() == old(self).outcomes().push(false)
                    &&& final(self).lookup() == old(self).lookup()
                    &&& final(self).continues(a)
                },
                PullEvent::Marked => {
                    &&& final(self).rows() == old(self).rows()
                    &&& final(self).outcomes() == old(self).outcomes()
                    &&& final(self).lookup() == old(self).lookup()
                    &&& match old(self).aborted() {
                        None => {
                            &&& final(self).phase() == PullPhase::Finished
                            &&& a matches PullAction::Finished { result } && result matches Ok(n)
                                && n == successful(old(self).rows(), old(self).outcomes()).len()
                        },
                        Some(m) => final(self).fails_with(a, m),
                    }
                },
                PullEvent::MarkFailed { message } => {
                    &&& final(self).rows() == old(self).rows()
                    &&& final(self).outcomes() == old(self).outcomes()
                    &&& final(self).lookup() == old(self).lookup()
                    &&& match old(self).aborted() {
                        None => final(self).fails_with(a, message@),
                        Some(m) => final(self).fails_with(a, m),
                    }
                },
            },
    {
        match e {
            PullEvent::Fetched { rows } => {
                if rows.len() == 0 {
                    self.phase = PullPhase::Finished;
                    return PullAction::Finished { result: Ok(0) };
                }
                let mut pending = rows;
                let ghost all = pending@;
                let first = pending.remove(0);
                self.rows = Ghost(all);
                self.outcomes = Ghost(Seq::empty());
                proof {
                    assert(pending@ =~= all.skip(1));
                    assert(successful(all, Seq::empty()) =~= Seq::<AviseRow>::empty());
                }
                self.pending = pending;
                self.begin_row(first)
            },
            PullEvent::FetchFailed { message } => {
                self.phase = PullPhase::Finished;
                PullAction::Finished { result: Err(AppError::Db(message)) }
            },
            PullEvent::ArtikelQueried { outcome } => {
                match lookup_artikel_info(&mut self.lookup, outcome) {
                    Ok(info) => {
                        let row = self.current.take().unwrap();
                        let data = self.publish_data(&row, &info);
                        self.current = Some(row);
                        self.phase = PullPhase::Publishing;
                        PullAction::Publish { data }
                    },
                    Err(err) => {
                        let message = match err {
                            AppError::Db(m) => m,
                            AppError::Config(m) => m,
                            AppError::Io(m) => m,
                            AppError::Other(m) => m,
                        };
                        self.current = None;
                        self.pending.clear();
                        self.abort = Some(message);
                        let plan = mark_pulled(&self.cfg, &self.published);
                        self.phase = PullPhase::Marking;
                        PullAction::Mark { plan }
                    },
                }
            },
            PullEvent::Published => {
                let row = self.current.take().unwrap();
                self.published.push(row);
                let ghost ok = self.outcomes@.push(true);
                proof {
                    assert(ok.drop_last() =~= self.outcomes@);
                }
                self.outcomes = Ghost(ok);
                self.advance()
            },
            PullEvent::PublishFailed => {
                self.current = None;
                let ghost ok = self.outcomes@.push(false);
                proof {
                    assert(ok.drop_last() =~= self.outcomes@);
                }
                self.outcomes = Ghost(ok);
                self.advance()
            },
            PullEvent::Marked => {
                self.phase = PullPhase::Finished;
                match self.abort.take() {
                    None => PullAction::Finished { result: Ok(self.published.len()) },
                    Some(m) => PullAction::Finished { result: Err(AppError::Db(m)) },
                }
            },
            PullEvent::MarkFailed { message } => {
                self.phase = PullPhase::Finished;
                match self.abort.take() {
                    None => PullAction::Finished { result: Err(AppError::Db(message)) },
                    Some(m) => PullAction::Finished { result: Err(AppError::Db(m)) },
                }
            },
        }
    }
}

} // verus!
