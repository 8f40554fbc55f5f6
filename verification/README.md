# hag-schenk-pull

Dienst, der offene Schenk-Avise aus der Legacy-Postgres
(`io_oxaion.i_weavise`) liest, mit Stammdaten aus `m.artikelbasis`
anreichert, als Events publiziert und danach als verarbeitet markiert.

- `src/` ist die mit Verus verifizierte Bibliothek: Gebinde-Vorbelegung,
  Anreicherung, Markierungsplan, Event-Envelope, Subject- und
  Nachrichtenaufbau für AMQP und NATS, Wiederholung beim Verbindungsaufbau
  und der Pull-Lauf als Zustandsmaschine (fetch → enrich → publish → mark).
- `app/` ist das Programm: Kommandozeile, Konfiguration (TOML + Env),
  Logging, Postgres-Abfragen, AMQP-/NATS-Verbindungen und die JSON-Form
  der Events. Es führt die Aktionen der Zustandsmaschine aus.
- `tests/` prüft die Bibliothek an Beispielen.

Mengen werden in der Bibliothek als ganze Tausendstel geführt
(`numeric(13,3)` in der Quelltabelle); erst die JSON-Form schreibt sie
als Zahl.
