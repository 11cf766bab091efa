//! Dichte quadratische Matrizen multiplizieren, mit mehreren Strategien
//! der Zeilenverteilung und mehreren Rechenkernen.
//!
//! Die Matrix zerfaellt in Abschnitte von wenigen Zeilen (`abschnitt`).
//! Ein Verteiler gibt sie aus, jeden einmal: der Zaehler (`verteiler`)
//! oder die Warteschlange (`warteschlange`). Ein Arbeiter (`arbeiter`,
//! `direkt`) uebernimmt Abschnitte und berechnet ihre Zeilen mit einem
//! der Rechenkerne (`kern`, `spuren`); der Zusammenbau (`zusammenbau`)
//! setzt die Zeilen ins Ergebnis. `algorithmen` fuehrt die Strategien
//! unter einem gemeinsamen Vertrag.
//!
//! Bewiesen ist, was herauskommt: jede Strategie liefert das Produkt aus
//! `matrix`, dessen Eintraege von links nach rechts summiert sind, mit
//! jedem Kern, jeder Zahl von Arbeitern und jeder Verteilung der Zeilen
//! auf die Arbeiter. Die Eintraege sind ein beliebiger `Skalar`.

pub mod ablauf;
pub mod abschnitt;
pub mod affinitaet;
pub mod algorithmen;
pub mod arbeiter;
pub mod direkt;
pub mod kern;
pub mod matrix;
pub mod skalar;
pub mod spuren;
pub mod verteiler;
pub mod warteschlange;
pub mod zusammenbau;
