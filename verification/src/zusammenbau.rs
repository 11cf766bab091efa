//! Der Zusammenbau: die Zeilen, die die Arbeiter berechnet haben, kommen
//! an ihren Platz in der Ergebnismatrix.

use crate::arbeiter::{puffer_ansicht, richtig};
use crate::matrix::{ansicht, matrixprodukt, produktzeile};
use crate::skalar::Skalar;
use vstd::prelude::*;

verus! {

/// Die Matrix `c`, nachdem die Zeilen eines Puffers der Reihe nach an
/// ihre Plaetze gesetzt sind.
pub open spec fn eingesetzt<T>(c: Seq<Seq<T>>, puffer: Seq<(usize, Seq<T>)>) -> Seq<Seq<T>>
    decreases puffer.len(),
{
    if puffer.len() == 0 {
        c
    } else {
        eingesetzt(c, puffer.drop_last()).update(puffer.last().0 as int, puffer.last().1)
    }
}

/// Setzt jede Zeile des Puffers an den Platz, den ihre Nummer nennt. Die
/// Zeilen werden nicht kopiert, sie wechseln den Besitzer.
pub fn einsetzen<T>(c: &mut Vec<Vec<T>>, rueckgabe: Vec<(usize, Vec<T>)>)
    requires
        forall|k: int| 0 <= k < rueckgabe@.len() ==> (#[trigger] rueckgabe@[k]).0 < old(c)@.len(),
    ensures
        final(c)@.len() == old(c)@.len(),
        ansicht(final(c)@) == eingesetzt(ansicht(old(c)@), puffer_ansicht(rueckgabe@)),
{
    let ghost puffer = puffer_ansicht(rueckgabe@);
    let ghost vorher = ansicht(c@);
    assert(puffer.take(0) =~= Seq::empty());
    for eintrag in it: rueckgabe
        invariant
            c@.len() == vorher.len(),
            puffer == puffer_ansicht(rueckgabe@),
            forall|k: int| 0 <= k < rueckgabe@.len() ==> (#[trigger] rueckgabe@[k]).0 < vorher.len(),
            ansicht(c@) == eingesetzt(vorher, puffer.take(it.index() as int)),
    {
        let ghost k = it.index() as int;
        let ghost davor = c@;
        let (i, zeile) = eintrag;
        c.set(i, zeile);
        proof {
            assert(puffer.take(k + 1).drop_last() =~= puffer.take(k));
            assert(ansicht(c@) =~= ansicht(davor).update(i as int, zeile@));
        }
    }
    assert(puffer.take(puffer.len() as int) =~= puffer);
}

/// Die Matrix `c`, nachdem die Puffer aller Arbeiter der Reihe nach
/// eingesetzt sind.
pub open spec fn alle_eingesetzt<T>(c: Seq<Seq<T>>, sammlung: Seq<Seq<(usize, Seq<T>)>>) -> Seq<Seq<T>>
    decreases sammlung.len(),
{
    if sammlung.len() == 0 {
        c
    } else {
        eingesetzt(alle_eingesetzt(c, sammlung.drop_last()), sammlung.last())
    }
}

/// Die Puffer aller Arbeiter, jeder gelesen als Folge von Zeilennummer
/// und Zeile.
pub open spec fn sammlung_ansicht<T>(sammeln: Seq<Vec<(usize, Vec<T>)>>) -> Seq<Seq<(usize, Seq<T>)>> {
    Seq::new(sammeln.len(), |w: int| puffer_ansicht(sammeln[w]@))
}

/// Setzt die Zeilen aller Puffer ein, Puffer fuer Puffer in der
/// Reihenfolge der Arbeiter.
pub fn alle_einsetzen<T>(c: &mut Vec<Vec<T>>, sammeln: Vec<Vec<(usize, Vec<T>)>>)
    requires
        forall|w: int, k: int|
            0 <= w < sammeln@.len() && 0 <= k < sammeln@[w]@.len() ==> (#[trigger] sammeln@[w]@[k]).0
                < old(c)@.len(),
    ensures
        final(c)@.len() == old(c)@.len(),
        ansicht(final(c)@) == alle_eingesetzt(ansicht(old(c)@), sammlung_ansicht(sammeln@)),
{
    let ghost sammlung = sammlung_ansicht(sammeln@);
    let ghost vorher = ansicht(c@);
    assert(sammlung.take(0) =~= Seq::empty());
    for rueckgabe in it: sammeln
        invariant
            c@.len() == vorher.len(),
            sammlung == sammlung_ansicht(sammeln@),
            forall|w: int, k: int|
                0 <= w < sammeln@.len() && 0 <= k < sammeln@[w]@.len() ==> (#[trigger] sammeln@[w]@[k]).0
                    < vorher.len(),
            ansicht(c@) == alle_eingesetzt(vorher, sammlung.take(it.index() as int)),
    {
        let ghost w = it.index() as int;
        einsetzen(c, rueckgabe);
        proof {
            assert(sammlung.take(w + 1).drop_last() =~= sammlung.take(w));
            assert(sammlung.take(w + 1).last() == puffer_ansicht(rueckgabe@));
        }
    }
    assert(sammlung.take(sammlung.len() as int) =~= sammlung);
}

/// Ob jeder Eintrag jedes Puffers die Zeile des Produkts zu seiner
/// Nummer traegt.
pub open spec fn alle_richtig<T: Skalar>(
    sammlung: Seq<Seq<(usize, Seq<T>)>>,
    a: Seq<Seq<T>>,
    b: Seq<Seq<T>>,
    n: nat,
) -> bool {
    forall|w: int, k: int|
        0 <= w < sammlung.len() && 0 <= k < sammlung[w].len() ==> richtig(#[trigger] sammlung[w][k], a, b, n)
}

/// Ob die Zeile `i` in einem der Puffer vorkommt.
pub open spec fn vorhanden<T>(sammlung: Seq<Seq<(usize, Seq<T>)>>, i: int) -> bool {
    exists|w: int, k: int|
        0 <= w < sammlung.len() && 0 <= k < sammlung[w].len() && (#[trigger] sammlung[w][k]).0 == i
}

proof fn lemma_eingesetzt<T: Skalar>(
    c: Seq<Seq<T>>,
    puffer: Seq<(usize, Seq<T>)>,
    a: Seq<Seq<T>>,
    b: Seq<Seq<T>>,
    n: nat,
)
    requires
        c.len() == n,
        forall|k: int| 0 <= k < puffer.len() ==> richtig(#[trigger] puffer[k], a, b, n),
    ensures
        eingesetzt(c, puffer).len() == n,
        forall|i: int|
            0 <= i < n ==> #[trigger] eingesetzt(c, puffer)[i] == c[i] || eingesetzt(c, puffer)[i]
                == produktzeile(a[i], b, n),
        forall|k: int|
            0 <= k < puffer.len() ==> eingesetzt(c, puffer)[(#[trigger] puffer[k]).0 as int] == produktzeile(
                a[puffer[k].0 as int],
                b,
                n,
            ),
    decreases puffer.len(),
{
    if puffer.len() > 0 {
        let davor = puffer.drop_last();
        assert forall|k: int| 0 <= k < davor.len() implies richtig(#[trigger] davor[k], a, b, n) by {
            assert(davor[k] == puffer[k]);
        }
        lemma_eingesetzt(c, davor, a, b, n);
        assert(richtig(puffer[puffer.len() - 1], a, b, n));
        assert forall|k: int| 0 <= k < puffer.len() implies eingesetzt(c, puffer)[(#[trigger] puffer[k]).0 as int]
            == produktzeile(a[puffer[k].0 as int], b, n) by {
            assert(richtig(puffer[k], a, b, n));
            if k < puffer.len() - 1 {
                assert(davor[k] == puffer[k]);
            }
        }
    }
}

proof fn lemma_alle_eingesetzt<T: Skalar>(
    c: Seq<Seq<T>>,
    sammlung: Seq<Seq<(usize, Seq<T>)>>,
    a: Seq<Seq<T>>,
    b: Seq<Seq<T>>,
    n: nat,
)
    requires
        c.len() == n,
        alle_richtig(sammlung, a, b, n),
    ensures
        alle_eingesetzt(c, sammlung).len() == n,
        forall|i: int|
            0 <= i < n ==> #[trigger] alle_eingesetzt(c, sammlung)[i] == c[i] || alle_eingesetzt(
                c,
                sammlung,
            )[i] == produktzeile(a[i], b, n),
        forall|w: int, k: int|
            0 <= w < sammlung.len() && 0 <= k < sammlung[w].len() ==> alle_eingesetzt(
                c,
                sammlung,
            )[(#[trigger] sammlung[w][k]).0 as int] == produktzeile(a[sammlung[w][k].0 as int], b, n),
    decreases sammlung.len(),
{
    if sammlung.len() > 0 {
        let davor = sammlung.drop_last();
        let letzter = sammlung.last();
        assert forall|w: int, k: int| 0 <= w < davor.len() && 0 <= k < davor[w].len() implies richtig(
            #[trigger] davor[w][k],
            a,
            b,
            n,
        ) by {
            assert(davor[w] == sammlung[w]);
        }
        lemma_alle_eingesetzt(c, davor, a, b, n);
        let zwischen = alle_eingesetzt(c, davor);
        assert forall|k: int| 0 <= k < letzter.len() implies richtig(#[trigger] letzter[k], a, b, n) by {
            assert(letzter[k] == sammlung[sammlung.len() - 1][k]);
        }
        lemma_eingesetzt(zwischen, letzter, a, b, n);
        assert forall|w: int, k: int| 0 <= w < sammlung.len() && 0 <= k < sammlung[w].len() implies alle_eingesetzt(
            c,
            sammlung,
        )[(#[trigger] sammlung[w][k]).0 as int] == produktzeile(a[sammlung[w][k].0 as int], b, n) by {
            let i = sammlung[w][k].0 as int;
            assert(richtig(sammlung[w][k], a, b, n));
            if w < sammlung.len() - 1 {
                assert(davor[w][k] == sammlung[w][k]);
                assert(zwischen[i] == produktzeile(a[i], b, n));
                assert(eingesetzt(zwischen, letzter)[i] == zwischen[i] || eingesetzt(zwischen, letzter)[i]
                    == produktzeile(a[i], b, n));
            } else {
                assert(letzter[k] == sammlung[w][k]);
            }
        }
        assert forall|i: int| 0 <= i < n implies #[trigger] alle_eingesetzt(c, sammlung)[i] == c[i]
            || alle_eingesetzt(c, sammlung)[i] == produktzeile(a[i], b, n) by {
            assert(eingesetzt(zwischen, letzter)[i] == zwischen[i] || eingesetzt(zwischen, letzter)[i]
                == produktzeile(a[i], b, n));
            assert(zwischen[i] == c[i] || zwischen[i] == produktzeile(a[i], b, n));
        }
    }
}

/// Das Ergebnis haengt nicht daran, wie die Zeilen auf die Arbeiter
/// verteilt waren: traegt jeder Eintrag der Puffer die Zeile des
/// Produkts zu seiner Nummer, und kommt jede Zeile der Matrix in einem
/// der Puffer vor, dann ergibt der Zusammenbau das Produkt, wie viele
/// Arbeiter es auch waren, welcher von ihnen welche Zeile berechnet hat
/// und in welcher Reihenfolge die Puffer eingesetzt werden.
pub proof fn ergebnis_haengt_nicht_an_der_verteilung<T: Skalar>(
    a: Seq<Seq<T>>,
    b: Seq<Seq<T>>,
    c: Seq<Seq<T>>,
    n: nat,
    sammlung: Seq<Seq<(usize, Seq<T>)>>,
)
    requires
        c.len() == n,
        alle_richtig(sammlung, a, b, n),
        forall|i: int| 0 <= i < n ==> vorhanden(sammlung, i),
    ensures
        alle_eingesetzt(c, sammlung) == matrixprodukt(a, b, n),
{
    lemma_alle_eingesetzt(c, sammlung, a, b, n);
    let ergebnis = alle_eingesetzt(c, sammlung);
    assert forall|i: int| 0 <= i < n implies ergebnis[i] == matrixprodukt(a, b, n)[i] by {
        assert(vorhanden(sammlung, i));
        let (w, k) = choose|w: int, k: int|
            0 <= w < sammlung.len() && 0 <= k < sammlung[w].len() && (#[trigger] sammlung[w][k]).0 == i;
        assert(ergebnis[sammlung[w][k].0 as int] == produktzeile(a[sammlung[w][k].0 as int], b, n));
    }
    assert(ergebnis =~= matrixprodukt(a, b, n));
}

/// Zwei Laeufe mit denselben Matrizen ergeben dasselbe, auch wenn die
/// Zeilen verschieden verteilt waren, die Zahl der Arbeiter eine andere
/// war und vorher anderes im Ergebnis stand.
pub proof fn zwei_laeufe_ein_ergebnis<T: Skalar>(
    a: Seq<Seq<T>>,
    b: Seq<Seq<T>>,
    n: nat,
    c1: Seq<Seq<T>>,
    sammlung1: Seq<Seq<(usize, Seq<T>)>>,
    c2: Seq<Seq<T>>,
    sammlung2: Seq<Seq<(usize, Seq<T>)>>,
)
    requires
        c1.len() == n,
        c2.len() == n,
        alle_richtig(sammlung1, a, b, n),
        alle_richtig(sammlung2, a, b, n),
        forall|i: int| 0 <= i < n ==> vorhanden(sammlung1, i),
        forall|i: int| 0 <= i < n ==> vorhanden(sammlung2, i),
    ensures
        alle_eingesetzt(c1, sammlung1) == alle_eingesetzt(c2, sammlung2),
{
    ergebnis_haengt_nicht_an_der_verteilung(a, b, c1, n, sammlung1);
    ergebnis_haengt_nicht_an_der_verteilung(a, b, c2, n, sammlung2);
}

} // verus!
