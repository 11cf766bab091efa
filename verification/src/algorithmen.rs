//! Die Strategien. Jede multipliziert zwei Matrizen unter demselben
//! Vertrag; sie unterscheiden sich darin, wie die Zeilen verteilt werden,
//! mit welchem Kern gerechnet wird und wie die Zeilen ins Ergebnis
//! kommen.
//!
//! Wo Arbeiter Abschnitte uebernehmen, kommen sie hier nacheinander zum
//! Zug, jeder auf dem aufrufenden Thread. Wer sie auf eigene Threads
//! verteilt, laesst jeden Thread mit `Abschnitt::ab` und
//! `arbeiter::bearbeite` arbeiten und setzt die Puffer mit
//! `zusammenbau::alle_einsetzen` ein; dass dabei dasselbe herauskommt,
//! sagt `zusammenbau::ergebnis_haengt_nicht_an_der_verteilung`.

pub mod crossbeam;
pub mod manuell_sicher;
pub mod manuell_unsicher;
pub mod rayon;
pub mod simd;
pub mod simd_tiling;
pub mod single;
pub mod tiling;
pub mod unroll;
