//! Die Eintraege einer Matrix: ein Typ mit Null, Addition und Multiplikation.

use vstd::prelude::*;

verus! {

/// Ein Matrixeintrag. `null_wert`, `summe` und `produkt` sagen, was die
/// Null, die Summe und das Produkt sind; `null`, `plus` und `mal`
/// rechnen sie aus. Verlangt wird nur, dass die Rechnung liefert, was
/// das Modell sagt, also bei gleichen Argumenten dasselbe. Weder
/// Assoziativitaet noch Kommutativitaet sind vorausgesetzt: darum legt
/// die Bibliothek ueberall fest, in welcher Reihenfolge summiert wird.
///
/// Ein Typ ausserhalb von Verus gibt fuer das Modell die Rechnung selbst
/// an.
pub trait Skalar: Copy {
    /// Der Wert, mit dem jede Summe beginnt.
    spec fn null_wert() -> Self;

    /// Die Summe zweier Eintraege.
    spec fn summe(self, rechts: Self) -> Self;

    /// Das Produkt zweier Eintraege.
    spec fn produkt(self, rechts: Self) -> Self;

    /// Liefert die Null.
    fn null() -> (r: Self)
        ensures
            r == Self::null_wert(),
    ;

    /// Addiert `rechts` zu `self`.
    fn plus(self, rechts: Self) -> (r: Self)
        ensures
            r == self.summe(rechts),
    ;

    /// Multipliziert `self` mit `rechts`.
    fn mal(self, rechts: Self) -> (r: Self)
        ensures
            r == self.produkt(rechts),
    ;
}

/// Ganze Zahlen, die beim Ueberlauf umlaufen.
impl Skalar for i64 {
    open spec fn null_wert() -> i64 {
        0i64
    }

    open spec fn summe(self, rechts: i64) -> i64 {
        self.wrapping_add(rechts)
    }

    open spec fn produkt(self, rechts: i64) -> i64 {
        self.wrapping_mul(rechts)
    }

    fn null() -> (r: i64) {
        0i64
    }

    fn plus(self, rechts: i64) -> (r: i64) {
        self.wrapping_add(rechts)
    }

    fn mal(self, rechts: i64) -> (r: i64) {
        self.wrapping_mul(rechts)
    }
}

} // verus!
