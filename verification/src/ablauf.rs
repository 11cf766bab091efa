//! Der Ablauf einer Multiplikation mit verteilten Zeilen, wenn die
//! Arbeiter nacheinander an die Reihe kommen: Verteiler, Arbeiter und
//! Zusammenbau im Ganzen.

use crate::abschnitt::{abschnitte, abschnitte_zerlegen_die_zeilen, alle_liegen_in, nummer_von};
use crate::affinitaet::bindbar;
use crate::arbeiter::{arbeite, kommt_vor, puffer_ansicht, richtig, zeilen_aller, zeilen_aller_sind_richtig, Kernart};
use crate::matrix::{ansicht, matrixprodukt, quadratisch};
use crate::skalar::Skalar;
use crate::verteiler::Verteiler;
use crate::zusammenbau::{alle_einsetzen, ergebnis_haengt_nicht_an_der_verteilung, sammlung_ansicht, vorhanden};
use core_affinity::CoreId;
use vstd::prelude::*;

verus! {

/// Multipliziert `a` mit `b` nach `c`. `threads` Arbeiter kommen der
/// Reihe nach zum Zug; jeder bindet sich an seinen Kern aus `pinnen` und
/// uebernimmt Abschnitte vom Verteiler, bis keiner mehr aussteht. Erst
/// wenn alle fertig sind, werden ihre Zeilen eingesetzt.
pub fn nacheinander<T: Skalar, V: Verteiler>(
    art: Kernart,
    a: &Vec<Vec<T>>,
    b: &Vec<Vec<T>>,
    c: &mut Vec<Vec<T>>,
    n: usize,
    threads: usize,
    pinnen: &Vec<CoreId>,
    verteiler: V,
)
    requires
        quadratisch(ansicht(a@), n as nat),
        quadratisch(ansicht(b@), n as nat),
        old(c)@.len() == n,
        1 <= threads <= pinnen@.len(),
        forall|z: int| 0 <= z < threads ==> bindbar(#[trigger] pinnen@[z]),
        verteiler.ausstehend() == abschnitte(n as nat),
    ensures
        final(c)@.len() == n,
        ansicht(final(c)@) == matrixprodukt(ansicht(a@), ansicht(b@), n as nat),
{
    let mut verteiler = verteiler;
    let mut sammeln: Vec<Vec<(usize, Vec<T>)>> = Vec::with_capacity(threads);
    let ghost alle = zeilen_aller(abschnitte(n as nat), ansicht(a@), ansicht(b@), n as nat);
    proof {
        abschnitte_zerlegen_die_zeilen(n as nat);
    }
    for z in 0..threads
        invariant
            quadratisch(ansicht(a@), n as nat),
            quadratisch(ansicht(b@), n as nat),
            threads <= pinnen@.len(),
            forall|z: int| 0 <= z < threads ==> bindbar(#[trigger] pinnen@[z]),
            alle == zeilen_aller(abschnitte(n as nat), ansicht(a@), ansicht(b@), n as nat),
            sammeln@.len() == z,
            z == 0 ==> verteiler.ausstehend() == abschnitte(n as nat),
            z > 0 ==> verteiler.ausstehend().len() == 0 && puffer_ansicht(sammeln@[0]@) == alle,
            forall|w: int| 1 <= w < z ==> puffer_ansicht(#[trigger] sammeln@[w]@).len() == 0,
            alle_liegen_in(abschnitte(n as nat), n as nat),
    {
        let kern: CoreId = pinnen[z];
        let berechnet: Vec<(usize, Vec<T>)> = arbeite(art, a, b, n, &mut verteiler, kern);
        sammeln.push(berechnet);
    }
    let ghost sammlung = sammlung_ansicht(sammeln@);
    let ghost vorher = ansicht(c@);
    proof {
        zeilen_aller_sind_richtig(abschnitte(n as nat), ansicht(a@), ansicht(b@), n as nat);
        assert(sammlung[0] == alle);
        assert forall|w: int, k: int| 0 <= w < sammlung.len() && 0 <= k < sammlung[w].len() implies richtig(
            #[trigger] sammlung[w][k],
            ansicht(a@),
            ansicht(b@),
            n as nat,
        ) by {
            if w > 0 {
                assert(puffer_ansicht(sammeln@[w]@).len() == 0);
            }
        }
        assert forall|i: int| 0 <= i < n implies vorhanden(sammlung, i) by {
            assert(abschnitte(n as nat)[nummer_von(i)].enthaelt(i));
            assert(kommt_vor(alle, i));
            let e = choose|e: int| 0 <= e < alle.len() && (#[trigger] alle[e]).0 == i;
            assert(sammlung[0][e].0 == i);
        }
        ergebnis_haengt_nicht_an_der_verteilung(ansicht(a@), ansicht(b@), vorher, n as nat, sammlung);
        assert forall|w: int, k: int|
            0 <= w < sammeln@.len() && 0 <= k < sammeln@[w]@.len() implies (#[trigger] sammeln@[w]@[k]).0
            < c@.len() by {
            assert(richtig(sammlung[w][k], ansicht(a@), ansicht(b@), n as nat));
        }
    }
    alle_einsetzen(c, sammeln);
}

} // verus!
