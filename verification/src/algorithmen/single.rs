//! Ein einziger Arbeiter auf dem aufrufenden Thread: der Massstab, an dem
//! die anderen Strategien gemessen werden.

use crate::affinitaet::{binde, bindbar};
use crate::kern::schreibe_zeile;
use crate::matrix::{ansicht, matrixprodukt, quadratisch};
use crate::skalar::Skalar;
use core_affinity::CoreId;
use vstd::prelude::*;

verus! {

/// Bindet den aufrufenden Thread an `kern` und multipliziert `a` mit `b`
/// nach `c`, Zeile fuer Zeile mit dem einfachen Kern.
pub fn ausfuehren<T: Skalar>(a: &Vec<Vec<T>>, b: &Vec<Vec<T>>, c: &mut Vec<Vec<T>>, n: usize, kern: &CoreId)
    requires
        quadratisch(ansicht(a@), n as nat),
        quadratisch(ansicht(b@), n as nat),
        quadratisch(ansicht(old(c)@), n as nat),
        bindbar(*kern),
    ensures
        final(c)@.len() == n,
        ansicht(final(c)@) == matrixprodukt(ansicht(a@), ansicht(b@), n as nat),
{
    binde(*kern);
    for i in 0..n
        invariant
            quadratisch(ansicht(a@), n as nat),
            quadratisch(ansicht(b@), n as nat),
            quadratisch(ansicht(c@), n as nat),
            forall|l: int| 0 <= l < i ==> #[trigger] ansicht(c@)[l] == matrixprodukt(
                ansicht(a@),
                ansicht(b@),
                n as nat,
            )[l],
    {
        let ghost davor = c@;
        assert(ansicht(c@)[i as int].len() == n);
        schreibe_zeile(a, b, i, n, &mut c[i]);
        proof {
            assert(ansicht(a@)[i as int] == a@[i as int]@);
            assert forall|l: int| 0 <= l < n && l != i implies #[trigger] ansicht(c@)[l] == ansicht(davor)[l] by {
                assert(c@[l] == davor[l]);
            }
            assert forall|l: int| 0 <= l < n implies (#[trigger] ansicht(c@)[l]).len() == n by {
                if l != i {
                    assert(ansicht(c@)[l] == ansicht(davor)[l]);
                }
            }
        }
    }
    assert(ansicht(c@) =~= matrixprodukt(ansicht(a@), ansicht(b@), n as nat));
}

} // verus!
