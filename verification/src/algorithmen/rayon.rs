//! Die Zeilen der Ergebnismatrix gehen an rayon: dessen Planer verteilt
//! sie auf seine Threads, und jede Zeile wird mit dem einfachen Kern an
//! ihrem Platz berechnet.

use crate::kern::schreibe_zeile;
use crate::matrix::{ansicht, matrixprodukt, produktzeile, quadratisch};
use crate::skalar::Skalar;
use ::rayon::iter::{IndexedParallelIterator, IntoParallelRefMutIterator, ParallelIterator};
use vstd::prelude::*;

verus! {

/// Ruft rayons `par_iter_mut().enumerate().for_each(..)` auf den Zeilen
/// von `c`: jede Zeile wird genau einmal, zusammen mit ihrer Nummer, an
/// `schreibe_zeile` gegeben, in beliebiger Reihenfolge und auf
/// beliebigen Threads. Danach gilt fuer jede Zeile, was `schreibe_zeile`
/// zusagt.
#[verifier::external_body]
fn jede_zeile<T: Skalar + Send + Sync>(a: &Vec<Vec<T>>, b: &Vec<Vec<T>>, c: &mut Vec<Vec<T>>, n: usize)
    requires
        quadratisch(ansicht(a@), n as nat),
        quadratisch(ansicht(b@), n as nat),
        quadratisch(ansicht(old(c)@), n as nat),
    ensures
        final(c)@.len() == n,
        forall|i: int|
            0 <= i < n ==> (#[trigger] final(c)@[i])@ == produktzeile(a@[i]@, ansicht(b@), n as nat),
{
    c.par_iter_mut().enumerate().for_each(|(i, zeile)| schreibe_zeile(a, b, i, n, zeile));
}

/// Multipliziert `a` mit `b` nach `c`. Wie viele Threads rechnen und an
/// welche Kerne sie gebunden sind, bestimmt der Pool, in dem der Aufruf
/// laeuft.
pub fn ausfuehren<T: Skalar + Send + Sync>(a: &Vec<Vec<T>>, b: &Vec<Vec<T>>, c: &mut Vec<Vec<T>>, n: usize)
    requires
        quadratisch(ansicht(a@), n as nat),
        quadratisch(ansicht(b@), n as nat),
        quadratisch(ansicht(old(c)@), n as nat),
    ensures
        final(c)@.len() == n,
        ansicht(final(c)@) == matrixprodukt(ansicht(a@), ansicht(b@), n as nat),
{
    jede_zeile(a, b, c, n);
    assert(ansicht(c@) =~= matrixprodukt(ansicht(a@), ansicht(b@), n as nat)) by {
        assert forall|i: int| 0 <= i < n implies ansicht(c@)[i] == matrixprodukt(ansicht(a@), ansicht(b@), n as nat)[i] by {
            assert(ansicht(a@)[i] == a@[i]@);
        }
    }
}

} // verus!
