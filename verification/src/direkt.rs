//! Arbeiter, die ihre Zeilen ohne Puffer gleich in die Ergebnismatrix
//! schreiben. Dass dabei nie zwei an derselben Zeile schreiben, liegt
//! allein am Verteiler: er gibt jeden Abschnitt nur einmal aus.

use crate::abschnitt::{
    abschnitte, abschnitte_zerlegen_die_zeilen, alle_liegen_in, nummer_von, rest_liegt_in, Abschnitt,
};
use crate::affinitaet::{binde, bindbar};
use crate::kern::schreibe_zeile;
use crate::matrix::{ansicht, matrixprodukt, produktzeile, quadratisch};
use crate::skalar::Skalar;
use crate::verteiler::Verteiler;
use core_affinity::CoreId;
use vstd::prelude::*;

verus! {

/// Ob `i` in einem Abschnitt der Folge liegt.
pub open spec fn in_einem(folge: Seq<Abschnitt>, i: int) -> bool {
    exists|k: int| 0 <= k < folge.len() && #[trigger] folge[k].enthaelt(i)
}

/// Die Matrix `c`, nachdem die Zeilen aller Abschnitte der Folge durch
/// die Zeilen des Produkts ersetzt sind.
pub open spec fn ueberschrieben<T: Skalar>(
    c: Seq<Seq<T>>,
    folge: Seq<Abschnitt>,
    a: Seq<Seq<T>>,
    b: Seq<Seq<T>>,
    n: nat,
) -> Seq<Seq<T>> {
    Seq::new(
        c.len(),
        |i: int|
            if in_einem(folge, i) {
                produktzeile(a[i], b, n)
            } else {
                c[i]
            },
    )
}

proof fn lemma_ein_abschnitt_mehr(folge: Seq<Abschnitt>, ab: Abschnitt, i: int)
    ensures
        in_einem(folge.push(ab), i) <==> in_einem(folge, i) || ab.enthaelt(i),
{
    let mehr = folge.push(ab);
    if in_einem(folge, i) {
        let k = choose|k: int| 0 <= k < folge.len() && #[trigger] folge[k].enthaelt(i);
        assert(mehr[k].enthaelt(i));
    }
    if ab.enthaelt(i) {
        assert(mehr[folge.len() as int].enthaelt(i));
    }
    if in_einem(mehr, i) {
        let k = choose|k: int| 0 <= k < mehr.len() && #[trigger] mehr[k].enthaelt(i);
        if k < folge.len() {
            assert(folge[k].enthaelt(i));
        }
    }
}

/// Berechnet die Zeilen eines Abschnitts gleich an ihrem Platz in `c`.
pub fn bearbeite_direkt<T: Skalar>(a: &Vec<Vec<T>>, b: &Vec<Vec<T>>, c: &mut Vec<Vec<T>>, n: usize, ab: Abschnitt)
    requires
        quadratisch(ansicht(a@), n as nat),
        quadratisch(ansicht(b@), n as nat),
        quadratisch(ansicht(old(c)@), n as nat),
        ab.liegt_in(n as nat),
    ensures
        ansicht(final(c)@) == ueberschrieben(
            ansicht(old(c)@),
            seq![ab],
            ansicht(a@),
            ansicht(b@),
            n as nat,
        ),
{
    let ghost vorher = ansicht(c@);
    for i in ab.anfang..ab.ende
        invariant
            quadratisch(ansicht(a@), n as nat),
            quadratisch(ansicht(b@), n as nat),
            quadratisch(ansicht(c@), n as nat),
            quadratisch(vorher, n as nat),
            ab.liegt_in(n as nat),
            forall|l: int| ab.anfang <= l < i ==> #[trigger] ansicht(c@)[l] == produktzeile(
                ansicht(a@)[l],
                ansicht(b@),
                n as nat,
            ),
            forall|l: int| 0 <= l < n && !(ab.anfang <= l < i) ==> #[trigger] ansicht(c@)[l] == vorher[l],
    {
        let ghost davor = c@;
        assert(ansicht(c@)[i as int].len() == n);
        schreibe_zeile(a, b, i, n, &mut c[i]);
        proof {
            assert(ansicht(a@)[i as int] == a@[i as int]@);
            assert forall|l: int| 0 <= l < n && l != i implies #[trigger] ansicht(c@)[l] == ansicht(davor)[l] by {
                assert(c@[l] == davor[l]);
            }
            assert forall|l: int| 0 <= l < n implies (#[trigger] ansicht(c@)[l]).len() == n by {
                if l != i {
                    assert(ansicht(c@)[l] == ansicht(davor)[l]);
                }
            }
        }
    }
    proof {
        let einer = seq![ab];
        assert forall|l: int| 0 <= l < n implies ansicht(c@)[l] == ueberschrieben(
            vorher,
            einer,
            ansicht(a@),
            ansicht(b@),
            n as nat,
        )[l] by {
            if ab.enthaelt(l) {
                assert(einer[0].enthaelt(l));
            }
        }
        assert(ansicht(c@) =~= ueberschrieben(vorher, einer, ansicht(a@), ansicht(b@), n as nat));
    }
}


proof fn lemma_weiter_ueberschrieben<T: Skalar>(
    c: Seq<Seq<T>>,
    folge: Seq<Abschnitt>,
    ab: Abschnitt,
    a: Seq<Seq<T>>,
    b: Seq<Seq<T>>,
    n: nat,
)
    ensures
        ueberschrieben(ueberschrieben(c, folge, a, b, n), seq![ab], a, b, n) == ueberschrieben(
            c,
            folge.push(ab),
            a,
            b,
            n,
        ),
{
    let zwischen = ueberschrieben(c, folge, a, b, n);
    assert(Seq::<Abschnitt>::empty().push(ab) =~= seq![ab]);
    assert forall|i: int| 0 <= i < c.len() implies ueberschrieben(zwischen, seq![ab], a, b, n)[i]
        == ueberschrieben(c, folge.push(ab), a, b, n)[i] by {
        lemma_ein_abschnitt_mehr(Seq::empty(), ab, i);
        lemma_ein_abschnitt_mehr(folge, ab, i);
    }
    assert(ueberschrieben(zwischen, seq![ab], a, b, n) =~= ueberschrieben(c, folge.push(ab), a, b, n));
}

/// Ein Arbeiter ohne Puffer: bindet sich an `kern`, uebernimmt dann
/// Abschnitte, bis der Verteiler keinen mehr ausgibt, und schreibt deren
/// Zeilen gleich nach `c`.
pub fn arbeite_direkt<T: Skalar, V: Verteiler>(
    a: &Vec<Vec<T>>,
    b: &Vec<Vec<T>>,
    c: &mut Vec<Vec<T>>,
    n: usize,
    verteiler: &mut V,
    kern: CoreId,
)
    requires
        quadratisch(ansicht(a@), n as nat),
        quadratisch(ansicht(b@), n as nat),
        quadratisch(ansicht(old(c)@), n as nat),
        bindbar(kern),
        alle_liegen_in(old(verteiler).ausstehend(), n as nat),
    ensures
        final(verteiler).ausstehend().len() == 0,
        ansicht(final(c)@) == ueberschrieben(
            ansicht(old(c)@),
            old(verteiler).ausstehend(),
            ansicht(a@),
            ansicht(b@),
            n as nat,
        ),
{
    binde(kern);
    let ghost anfangs = verteiler.ausstehend();
    let ghost vorher = ansicht(c@);
    let ghost mut erledigt: Seq<Abschnitt> = Seq::empty();
    proof {
        assert(erledigt + anfangs =~= anfangs);
        assert forall|i: int| !in_einem(erledigt, i) by {}
        assert(vorher =~= ueberschrieben(vorher, erledigt, ansicht(a@), ansicht(b@), n as nat));
    }
    loop
        invariant
            quadratisch(ansicht(a@), n as nat),
            quadratisch(ansicht(b@), n as nat),
            quadratisch(ansicht(c@), n as nat),
            erledigt + verteiler.ausstehend() == anfangs,
            alle_liegen_in(verteiler.ausstehend(), n as nat),
            ansicht(c@) == ueberschrieben(vorher, erledigt, ansicht(a@), ansicht(b@), n as nat),
        ensures
            verteiler.ausstehend().len() == 0,
            ansicht(c@) == ueberschrieben(vorher, anfangs, ansicht(a@), ansicht(b@), n as nat),
        decreases verteiler.ausstehend().len(),
    {
        let ghost davor = verteiler.ausstehend();
        match verteiler.nimm() {
            None => {
                assert(erledigt + davor =~= erledigt);
                break ;
            },
            Some(ab) => {
                proof {
                    rest_liegt_in(davor, n as nat);
                }
                bearbeite_direkt(a, b, c, n, ab);
                proof {
                    lemma_weiter_ueberschrieben(vorher, erledigt, ab, ansicht(a@), ansicht(b@), n as nat);
                    assert(erledigt.push(ab) + davor.skip(1) =~= erledigt + davor);
                    erledigt = erledigt.push(ab);
                    assert forall|i: int| 0 <= i < n implies (#[trigger] ansicht(c@)[i]).len() == n by {
                        assert(ansicht(a@)[i].len() == n);
                    }
                }
            },
        }
    }
}

/// Multipliziert `a` mit `b` nach `c`, ohne Puffer. `threads` Arbeiter
/// kommen der Reihe nach zum Zug; jeder bindet sich an seinen Kern aus
/// `pinnen` und schreibt die Zeilen seiner Abschnitte gleich nach `c`.
pub fn direkt_nacheinander<T: Skalar, V: Verteiler>(
    a: &Vec<Vec<T>>,
    b: &Vec<Vec<T>>,
    c: &mut Vec<Vec<T>>,
    n: usize,
    threads: usize,
    pinnen: &Vec<CoreId>,
    verteiler: V,
)
    requires
        quadratisch(ansicht(a@), n as nat),
        quadratisch(ansicht(b@), n as nat),
        quadratisch(ansicht(old(c)@), n as nat),
        1 <= threads <= pinnen@.len(),
        forall|z: int| 0 <= z < threads ==> bindbar(#[trigger] pinnen@[z]),
        verteiler.ausstehend() == abschnitte(n as nat),
    ensures
        final(c)@.len() == n,
        ansicht(final(c)@) == matrixprodukt(ansicht(a@), ansicht(b@), n as nat),
{
    let mut verteiler = verteiler;
    let ghost vorher = ansicht(c@);
    proof {
        abschnitte_zerlegen_die_zeilen(n as nat);
    }
    for z in 0..threads
        invariant
            quadratisch(ansicht(a@), n as nat),
            quadratisch(ansicht(b@), n as nat),
            quadratisch(ansicht(c@), n as nat),
            threads <= pinnen@.len(),
            forall|z: int| 0 <= z < threads ==> bindbar(#[trigger] pinnen@[z]),
            z == 0 ==> verteiler.ausstehend() == abschnitte(n as nat) && ansicht(c@) == vorher,
            z > 0 ==> verteiler.ausstehend().len() == 0 && ansicht(c@) == matrixprodukt(
                ansicht(a@),
                ansicht(b@),
                n as nat,
            ),
            alle_liegen_in(abschnitte(n as nat), n as nat),
            forall|i: int|
                0 <= i < n ==> 0 <= #[trigger] nummer_von(i) < abschnitte(n as nat).len() && abschnitte(
                    n as nat,
                )[nummer_von(i)].enthaelt(i),
    {
        let kern: CoreId = pinnen[z];
        let ghost davor = ansicht(c@);
        let ghost offen = verteiler.ausstehend();
        arbeite_direkt(a, b, c, n, &mut verteiler, kern);
        proof {
            let danach = ueberschrieben(davor, offen, ansicht(a@), ansicht(b@), n as nat);
            assert forall|i: int| 0 <= i < n implies danach[i] == matrixprodukt(ansicht(a@), ansicht(b@), n as nat)[i] by {
                if z == 0 {
                    assert(offen[nummer_von(i)].enthaelt(i));
                } else {
                    assert(!in_einem(offen, i));
                }
            }
            assert(danach =~= matrixprodukt(ansicht(a@), ansicht(b@), n as nat));
            assert forall|i: int| 0 <= i < n implies (#[trigger] ansicht(c@)[i]).len() == n by {
                assert(ansicht(a@)[i].len() == n);
            }
        }
    }
}

} // verus!
