//! Der Zaehler verteilt die Abschnitte, gerechnet wird mit dem einfachen
//! Kern, und die Arbeiter schreiben ohne Puffer gleich in die
//! Ergebnismatrix.

use crate::affinitaet::bindbar;
use crate::direkt::direkt_nacheinander;
use crate::matrix::{ansicht, matrixprodukt, quadratisch};
use crate::skalar::Skalar;
use crate::verteiler::Zaehler;
use core_affinity::CoreId;
use vstd::prelude::*;

verus! {

/// Multipliziert `a` mit `b` nach `c`, mit `threads` Arbeitern, von
/// denen der Arbeiter `z` an den Kern `pinnen[z]` gebunden wird. Das
/// Ergebnis ist das Produkt, wie viele Arbeiter es auch sind.
pub fn ausfuehren<T: Skalar>(
    a: &Vec<Vec<T>>,
    b: &Vec<Vec<T>>,
    c: &mut Vec<Vec<T>>,
    n: usize,
    threads: usize,
    pinnen: &Vec<CoreId>,
)
    requires
        quadratisch(ansicht(a@), n as nat),
        quadratisch(ansicht(b@), n as nat),
        quadratisch(ansicht(old(c)@), n as nat),
        1 <= threads <= pinnen@.len(),
        forall|z: int| 0 <= z < threads ==> bindbar(#[trigger] pinnen@[z]),
    ensures
        final(c)@.len() == n,
        ansicht(final(c)@) == matrixprodukt(ansicht(a@), ansicht(b@), n as nat),
{
    direkt_nacheinander(a, b, c, n, threads, pinnen, Zaehler::neu(n));
}

} // verus!
