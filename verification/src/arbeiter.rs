//! Der Arbeiter: er bindet sich an seinen Kern, uebernimmt Abschnitt um
//! Abschnitt vom Verteiler und berechnet deren Zeilen in eigene Puffer.

use crate::abschnitt::{
    abschnitt_bei, alle_liegen_in, nach_dem_ersten, rest_liegt_in, restliche_abschnitte, Abschnitt, ZEILEN,
};
use crate::affinitaet::{binde, bindbar};
use crate::kern::{zeile_entrollt, zeile_gekachelt, zeile_gekachelt_vektor, zeile_naiv, zeile_vektor};
use crate::matrix::{ansicht, produktzeile, quadratisch};
use crate::skalar::Skalar;
use crate::verteiler::Verteiler;
use core_affinity::CoreId;
use vstd::prelude::*;

verus! {

/// Die Rechenkerne zur Auswahl.
#[derive(Clone, Copy, Debug, PartialEq, Eq, Structural)]
pub enum Kernart {
    Naiv,
    Entrollt,
    Gekachelt,
    Vektor,
    GekacheltVektor,
}

/// Berechnet die Zeile `i` des Produkts mit dem gewaehlten Kern. Welcher
/// es auch ist, die Zeile ist dieselbe.
pub fn zeile<T: Skalar>(art: Kernart, a: &Vec<Vec<T>>, b: &Vec<Vec<T>>, i: usize, n: usize) -> (zeile: Vec<T>)
    requires
        quadratisch(ansicht(a@), n as nat),
        quadratisch(ansicht(b@), n as nat),
        i < n,
    ensures
        zeile@ == produktzeile(a@[i as int]@, ansicht(b@), n as nat),
{
    match art {
        Kernart::Naiv => zeile_naiv(a, b, i, n),
        Kernart::Entrollt => zeile_entrollt(a, b, i, n),
        Kernart::Gekachelt => zeile_gekachelt(a, b, i, n),
        Kernart::Vektor => zeile_vektor(a, b, i, n),
        Kernart::GekacheltVektor => zeile_gekachelt_vektor(a, b, i, n),
    }
}

/// Der Puffer eines Arbeiters, gelesen als Folge von Zeilennummer und
/// Zeile.
pub open spec fn puffer_ansicht<T>(puffer: Seq<(usize, Vec<T>)>) -> Seq<(usize, Seq<T>)> {
    Seq::new(puffer.len(), |k: int| (puffer[k].0, puffer[k].1@))
}

/// Die Zeilen des Produkts, die zu einem Abschnitt gehoeren, jede mit
/// ihrer Nummer, in aufsteigender Folge.
pub open spec fn zeilen_von<T: Skalar>(
    ab: Abschnitt,
    a: Seq<Seq<T>>,
    b: Seq<Seq<T>>,
    n: nat,
) -> Seq<(usize, Seq<T>)> {
    Seq::new(
        (ab.ende - ab.anfang) as nat,
        |l: int| ((ab.anfang + l) as usize, produktzeile(a[ab.anfang + l], b, n)),
    )
}

/// Die Zeilen des Produkts zu einer Folge von Abschnitten, Abschnitt
/// fuer Abschnitt hintereinander.
pub open spec fn zeilen_aller<T: Skalar>(
    folge: Seq<Abschnitt>,
    a: Seq<Seq<T>>,
    b: Seq<Seq<T>>,
    n: nat,
) -> Seq<(usize, Seq<T>)>
    decreases folge.len(),
{
    if folge.len() == 0 {
        Seq::empty()
    } else {
        zeilen_von(folge[0], a, b, n) + zeilen_aller(folge.skip(1), a, b, n)
    }
}

/// Ob ein Eintrag eines Puffers eine Zeile der Matrix nennt und die
/// Zeile des Produkts mit dieser Nummer traegt.
pub open spec fn richtig<T: Skalar>(eintrag: (usize, Seq<T>), a: Seq<Seq<T>>, b: Seq<Seq<T>>, n: nat) -> bool {
    &&& eintrag.0 < n
    &&& eintrag.1 == produktzeile(a[eintrag.0 as int], b, n)
}

/// Ob die Zeile `i` im Puffer vorkommt.
pub open spec fn kommt_vor<T>(puffer: Seq<(usize, Seq<T>)>, i: int) -> bool {
    exists|e: int| 0 <= e < puffer.len() && (#[trigger] puffer[e]).0 == i
}

/// Wer die Abschnitte einer Folge abarbeitet, hat danach zu jeder Zeile
/// jedes Abschnitts einen Eintrag im Puffer, und jeder Eintrag traegt
/// die Zeile des Produkts zu seiner Nummer.
pub proof fn zeilen_aller_sind_richtig<T: Skalar>(folge: Seq<Abschnitt>, a: Seq<Seq<T>>, b: Seq<Seq<T>>, n: nat)
    requires
        n <= usize::MAX,
        alle_liegen_in(folge, n),
    ensures
        forall|e: int|
            0 <= e < zeilen_aller(folge, a, b, n).len() ==> richtig(
                #[trigger] zeilen_aller(folge, a, b, n)[e],
                a,
                b,
                n,
            ),
        forall|k: int, i: int|
            0 <= k < folge.len() && #[trigger] folge[k].enthaelt(i) ==> kommt_vor(
                zeilen_aller(folge, a, b, n),
                i,
            ),
    decreases folge.len(),
{
    if folge.len() > 0 {
        let erster = zeilen_von(folge[0], a, b, n);
        let rest = zeilen_aller(folge.skip(1), a, b, n);
        let alle = zeilen_aller(folge, a, b, n);
        rest_liegt_in(folge, n);
        zeilen_aller_sind_richtig(folge.skip(1), a, b, n);
        assert forall|e: int| 0 <= e < alle.len() implies richtig(#[trigger] alle[e], a, b, n) by {
            if e < erster.len() {
                assert(alle[e] == erster[e]);
            } else {
                assert(alle[e] == rest[e - erster.len()]);
            }
        }
        assert forall|k: int, i: int| 0 <= k < folge.len() && #[trigger] folge[k].enthaelt(i) implies kommt_vor(
            alle,
            i,
        ) by {
            if k == 0 {
                let e = i - folge[0].anfang;
                assert(alle[e] == erster[e]);
                assert(alle[e].0 == i);
            } else {
                assert(folge.skip(1)[k - 1] == folge[k]);
                assert(folge.skip(1)[k - 1].enthaelt(i));
                assert(kommt_vor(rest, i));
                let e = choose|e: int| 0 <= e < rest.len() && (#[trigger] rest[e]).0 == i;
                assert(alle[erster.len() + e] == rest[e]);
            }
        }
    }
}

/// Die Zeilen `von..n` des Produkts, jede mit ihrer Nummer, in
/// aufsteigender Folge.
pub open spec fn zeilen_ab<T: Skalar>(von: nat, a: Seq<Seq<T>>, b: Seq<Seq<T>>, n: nat) -> Seq<(usize, Seq<T>)> {
    Seq::new((n - von) as nat, |l: int| ((von + l) as usize, produktzeile(a[von + l], b, n)))
}

/// Wer alle Abschnitte von `von` an abarbeitet, hat danach genau die
/// Zeilen `von..n` des Produkts im Puffer: jede einmal, keine zweimal,
/// in aufsteigender Folge.
pub proof fn jede_zeile_genau_einmal<T: Skalar>(von: nat, a: Seq<Seq<T>>, b: Seq<Seq<T>>, n: nat)
    requires
        von <= n <= usize::MAX,
    ensures
        zeilen_aller(restliche_abschnitte(von, n), a, b, n) == zeilen_ab(von, a, b, n),
    decreases n - von,
{
    let folge = restliche_abschnitte(von, n);
    if von < n {
        nach_dem_ersten(von, n);
        let erster = zeilen_von(abschnitt_bei(von, n), a, b, n);
        let rest = zeilen_aller(restliche_abschnitte(von + ZEILEN as nat, n), a, b, n);
        assert(zeilen_aller(folge, a, b, n) == erster + rest);
        if von + ZEILEN <= n {
            jede_zeile_genau_einmal(von + ZEILEN as nat, a, b, n);
            assert(erster + rest =~= zeilen_ab(von, a, b, n));
        } else {
            assert(restliche_abschnitte(von + ZEILEN as nat, n).len() == 0);
            assert(erster + rest =~= zeilen_ab(von, a, b, n));
        }
    } else {
        assert(zeilen_aller(folge, a, b, n) =~= zeilen_ab(von, a, b, n));
    }
}

/// Ein Arbeiter, fuer den kein Abschnitt mehr aussteht, berechnet keine
/// Zeile: wer zu spaet kommt, aendert am Ergebnis nichts.
pub proof fn ohne_abschnitt_keine_zeile<T: Skalar>(a: Seq<Seq<T>>, b: Seq<Seq<T>>, n: nat)
    ensures
        zeilen_aller(Seq::<Abschnitt>::empty(), a, b, n) == Seq::<(usize, Seq<T>)>::empty(),
{
}

/// Berechnet die Zeilen eines Abschnitts und haengt sie, jede mit ihrer
/// Nummer, an den Puffer an.
pub fn bearbeite<T: Skalar>(
    art: Kernart,
    a: &Vec<Vec<T>>,
    b: &Vec<Vec<T>>,
    n: usize,
    ab: Abschnitt,
    berechnet: &mut Vec<(usize, Vec<T>)>,
)
    requires
        quadratisch(ansicht(a@), n as nat),
        quadratisch(ansicht(b@), n as nat),
        ab.liegt_in(n as nat),
    ensures
        puffer_ansicht(final(berechnet)@) == puffer_ansicht(old(berechnet)@) + zeilen_von(
            ab,
            ansicht(a@),
            ansicht(b@),
            n as nat,
        ),
{
    let ghost vorher = puffer_ansicht(berechnet@);
    let ghost neu = zeilen_von(ab, ansicht(a@), ansicht(b@), n as nat);
    assert(puffer_ansicht(berechnet@) =~= vorher + neu.take(0));
    for i in ab.anfang..ab.ende
        invariant
            quadratisch(ansicht(a@), n as nat),
            quadratisch(ansicht(b@), n as nat),
            ab.liegt_in(n as nat),
            neu == zeilen_von(ab, ansicht(a@), ansicht(b@), n as nat),
            puffer_ansicht(berechnet@) == vorher + neu.take(i - ab.anfang),
    {
        let ghost davor = berechnet@;
        let fertig: Vec<T> = zeile(art, a, b, i, n);
        berechnet.push((i, fertig));
        proof {
            assert(ansicht(a@)[i as int] == a@[i as int]@);
            assert(puffer_ansicht(berechnet@) =~= puffer_ansicht(davor).push((i, fertig@)));
            assert(neu.take(i + 1 - ab.anfang) =~= neu.take(i - ab.anfang).push(neu[i - ab.anfang]));
            assert(vorher + neu.take(i - ab.anfang).push(neu[i - ab.anfang]) =~= (vorher + neu.take(
                i - ab.anfang,
            )).push(neu[i - ab.anfang]));
        }
    }
    assert(neu.take(ab.ende - ab.anfang) =~= neu);
}

/// Ein Arbeiter: bindet sich an `kern`, uebernimmt dann Abschnitte, bis
/// der Verteiler keinen mehr ausgibt, und gibt die berechneten Zeilen
/// zurueck.
pub fn arbeite<T: Skalar, V: Verteiler>(
    art: Kernart,
    a: &Vec<Vec<T>>,
    b: &Vec<Vec<T>>,
    n: usize,
    verteiler: &mut V,
    kern: CoreId,
) -> (berechnet: Vec<(usize, Vec<T>)>)
    requires
        quadratisch(ansicht(a@), n as nat),
        quadratisch(ansicht(b@), n as nat),
        bindbar(kern),
        alle_liegen_in(old(verteiler).ausstehend(), n as nat),
    ensures
        final(verteiler).ausstehend().len() == 0,
        puffer_ansicht(berechnet@) == zeilen_aller(
            old(verteiler).ausstehend(),
            ansicht(a@),
            ansicht(b@),
            n as nat,
        ),
{
    binde(kern);
    let mut berechnet: Vec<(usize, Vec<T>)> = Vec::new();
    let ghost anfangs = verteiler.ausstehend();
    assert(puffer_ansicht(berechnet@) =~= Seq::empty());
    loop
        invariant
            quadratisch(ansicht(a@), n as nat),
            quadratisch(ansicht(b@), n as nat),
            alle_liegen_in(verteiler.ausstehend(), n as nat),
            puffer_ansicht(berechnet@) + zeilen_aller(verteiler.ausstehend(), ansicht(a@), ansicht(b@), n as nat)
                == zeilen_aller(anfangs, ansicht(a@), ansicht(b@), n as nat),
        ensures
            verteiler.ausstehend().len() == 0,
            puffer_ansicht(berechnet@) == zeilen_aller(anfangs, ansicht(a@), ansicht(b@), n as nat),
        decreases verteiler.ausstehend().len(),
    {
        let ghost davor = verteiler.ausstehend();
        let ghost puffer_davor = puffer_ansicht(berechnet@);
        match verteiler.nimm() {
            None => {
                assert(zeilen_aller(davor, ansicht(a@), ansicht(b@), n as nat) =~= Seq::empty());
                assert(puffer_ansicht(berechnet@) =~= puffer_ansicht(berechnet@) + Seq::empty());
                break ;
            },
            Some(ab) => {
                proof {
                    rest_liegt_in(davor, n as nat);
                }
                bearbeite(art, a, b, n, ab, &mut berechnet);
                assert(puffer_ansicht(berechnet@) + zeilen_aller(
                    davor.skip(1),
                    ansicht(a@),
                    ansicht(b@),
                    n as nat,
                ) =~= puffer_davor + zeilen_aller(davor, ansicht(a@), ansicht(b@), n as nat));
            },
        }
    }
    berechnet
}

} // verus!
