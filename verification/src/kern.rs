//! Die Rechenkerne: jeder berechnet eine Zeile des Produkts aus einer
//! Zeile von `a` und der ganzen Matrix `b`. Sie unterscheiden sich nur
//! im Aufbau der Schleifen; jeder addiert die Glieder eines Eintrags in
//! derselben Reihenfolge und liefert darum dieselbe Zeile.

use crate::matrix::{ansicht, nullzeile, produktzeile, quadratisch, skalarprodukt};
use crate::skalar::Skalar;
use crate::spuren::{Vierfach, SPUREN};
use vstd::prelude::*;

verus! {

/// Der einfache Kern: fuer jede Spalte eine Schleife ueber alle Glieder.
/// Er schreibt in eine vorhandene Zeile und ersetzt jeden ihrer
/// Eintraege.
pub fn schreibe_zeile<T: Skalar>(
    a: &Vec<Vec<T>>,
    b: &Vec<Vec<T>>,
    i: usize,
    n: usize,
    zeile: &mut Vec<T>,
)
    requires
        quadratisch(ansicht(a@), n as nat),
        quadratisch(ansicht(b@), n as nat),
        i < n,
        old(zeile)@.len() == n,
    ensures
        final(zeile)@ == produktzeile(a@[i as int]@, ansicht(b@), n as nat),
{
    let az: &Vec<T> = &a[i];
    assert(az@ == ansicht(a@)[i as int]);
    for j in 0..n
        invariant
            quadratisch(ansicht(b@), n as nat),
            az@.len() == n,
            zeile@.len() == n,
            forall|l: int| 0 <= l < j ==> #[trigger] zeile@[l] == skalarprodukt(az@, ansicht(b@), l, n as nat),
    {
        let mut summe: T = T::null();
        for k in 0..n
            invariant
                quadratisch(ansicht(b@), n as nat),
                az@.len() == n,
                j < n,
                summe == skalarprodukt(az@, ansicht(b@), j as int, k as nat),
        {
            assert(ansicht(b@)[k as int] == b@[k as int]@);
            summe = summe.plus(az[k].mal(b[k][j]));
        }
        zeile.set(j, summe);
    }
}

/// Der einfache Kern, mit einer neuen Zeile als Ergebnis.
pub fn zeile_naiv<T: Skalar>(a: &Vec<Vec<T>>, b: &Vec<Vec<T>>, i: usize, n: usize) -> (zeile: Vec<T>)
    requires
        quadratisch(ansicht(a@), n as nat),
        quadratisch(ansicht(b@), n as nat),
        i < n,
    ensures
        zeile@ == produktzeile(a@[i as int]@, ansicht(b@), n as nat),
{
    let mut zeile: Vec<T> = nullzeile(n);
    schreibe_zeile(a, b, i, n, &mut zeile);
    zeile
}

/// So viele Glieder fasst der entrollte Kern in einem Schritt zusammen.
pub const FAKTOR: usize = 4;

/// Der entrollte Kern: je `FAKTOR` Glieder in einem Schritt, die
/// uebrigen `n % FAKTOR` einzeln.
pub fn zeile_entrollt<T: Skalar>(a: &Vec<Vec<T>>, b: &Vec<Vec<T>>, i: usize, n: usize) -> (zeile: Vec<T>)
    requires
        quadratisch(ansicht(a@), n as nat),
        quadratisch(ansicht(b@), n as nat),
        i < n,
    ensures
        zeile@ == produktzeile(a@[i as int]@, ansicht(b@), n as nat),
{
    let grenze: usize = n - n % FAKTOR;
    let mut zeile: Vec<T> = nullzeile(n);
    let az: &Vec<T> = &a[i];
    assert(az@ == ansicht(a@)[i as int]);
    for j in 0..n
        invariant
            quadratisch(ansicht(b@), n as nat),
            az@.len() == n,
            zeile@.len() == n,
            grenze == n - n % FAKTOR,
            forall|l: int| 0 <= l < j ==> #[trigger] zeile@[l] == skalarprodukt(az@, ansicht(b@), l, n as nat),
    {
        let mut summe: T = T::null();
        let mut k: usize = 0;
        while k < grenze
            invariant
                quadratisch(ansicht(b@), n as nat),
                az@.len() == n,
                j < n,
                grenze == n - n % FAKTOR,
                k <= grenze,
                k % FAKTOR == 0,
                summe == skalarprodukt(az@, ansicht(b@), j as int, k as nat),
            decreases grenze - k,
        {
            assert(k + 3 < n);
            assert(ansicht(b@)[k as int] == b@[k as int]@);
            assert(ansicht(b@)[k + 1] == b@[k + 1]@);
            assert(ansicht(b@)[k + 2] == b@[k + 2]@);
            assert(ansicht(b@)[k + 3] == b@[k + 3]@);
            assert(skalarprodukt(az@, ansicht(b@), j as int, (k + 4) as nat) == skalarprodukt(
                az@,
                ansicht(b@),
                j as int,
                k as nat,
            ).summe(az@[k as int].produkt(b@[k as int]@[j as int])).summe(
                az@[k + 1].produkt(b@[k + 1]@[j as int]),
            ).summe(az@[k + 2].produkt(b@[k + 2]@[j as int])).summe(
                az@[k + 3].produkt(b@[k + 3]@[j as int]),
            )) by {
                reveal_with_fuel(skalarprodukt, 5);
            }
            summe = summe.plus(az[k].mal(b[k][j])).plus(az[k + 1].mal(b[k + 1][j])).plus(
                az[k + 2].mal(b[k + 2][j]),
            ).plus(az[k + 3].mal(b[k + 3][j]));
            k = k + FAKTOR;
        }
        for k in grenze..n
            invariant
                quadratisch(ansicht(b@), n as nat),
                az@.len() == n,
                j < n,
                grenze <= n,
                summe == skalarprodukt(az@, ansicht(b@), j as int, k as nat),
        {
            assert(ansicht(b@)[k as int] == b@[k as int]@);
            summe = summe.plus(az[k].mal(b[k][j]));
        }
        zeile.set(j, summe);
    }
    zeile
}


/// Die Kantenlaenge einer Kachel.
pub const BLOCK: usize = 8;

/// Das Ende der Kachel, die bei `anfang` beginnt: `BLOCK` weiter,
/// hoechstens aber `n`.
pub fn kachelende(anfang: usize, n: usize) -> (ende: usize)
    requires
        anfang < n,
    ensures
        anfang < ende <= n,
        ende == if anfang + BLOCK <= n {
            anfang + BLOCK
        } else {
            n as int
        },
{
    if n - anfang < BLOCK {
        n
    } else {
        anfang + BLOCK
    }
}

/// Der gekachelte Kern: die Glieder und die Spalten sind in Kacheln der
/// Kantenlaenge `BLOCK` geteilt. Aussen laufen die Kacheln der Glieder,
/// innen die der Spalten; in einer Kachel wird jeder Eintrag von `a` nur
/// einmal gelesen.
pub fn zeile_gekachelt<T: Skalar>(a: &Vec<Vec<T>>, b: &Vec<Vec<T>>, i: usize, n: usize) -> (zeile: Vec<T>)
    requires
        quadratisch(ansicht(a@), n as nat),
        quadratisch(ansicht(b@), n as nat),
        i < n,
    ensures
        zeile@ == produktzeile(a@[i as int]@, ansicht(b@), n as nat),
{
    let mut zeile: Vec<T> = nullzeile(n);
    let az: &Vec<T> = &a[i];
    assert(az@ == ansicht(a@)[i as int]);
    let mut k_block: usize = 0;
    while k_block < n
        invariant
            quadratisch(ansicht(b@), n as nat),
            az@.len() == n,
            zeile@.len() == n,
            k_block <= n,
            forall|l: int| 0 <= l < n ==> #[trigger] zeile@[l] == skalarprodukt(az@, ansicht(b@), l, k_block as nat),
        decreases n - k_block,
    {
        let k_max: usize = kachelende(k_block, n);
        let mut j_block: usize = 0;
        while j_block < n
            invariant
                quadratisch(ansicht(b@), n as nat),
                az@.len() == n,
                zeile@.len() == n,
                k_block < k_max <= n,
                j_block <= n,
                forall|l: int| 0 <= l < j_block ==> #[trigger] zeile@[l] == skalarprodukt(az@, ansicht(b@), l, k_max as nat),
                forall|l: int| j_block <= l < n ==> #[trigger] zeile@[l] == skalarprodukt(az@, ansicht(b@), l, k_block as nat),
            decreases n - j_block,
        {
            let j_max: usize = kachelende(j_block, n);
            for k in k_block..k_max
                invariant
                    quadratisch(ansicht(b@), n as nat),
                    az@.len() == n,
                    zeile@.len() == n,
                    k_block < k_max <= n,
                    j_block < j_max <= n,
                    forall|l: int| 0 <= l < j_block ==> #[trigger] zeile@[l] == skalarprodukt(az@, ansicht(b@), l, k_max as nat),
                    forall|l: int| j_block <= l < j_max ==> #[trigger] zeile@[l] == skalarprodukt(az@, ansicht(b@), l, k as nat),
                    forall|l: int| j_max <= l < n ==> #[trigger] zeile@[l] == skalarprodukt(az@, ansicht(b@), l, k_block as nat),
            {
                let optimiert: T = az[k];
                assert(ansicht(b@)[k as int] == b@[k as int]@);
                for j in j_block..j_max
                    invariant
                        quadratisch(ansicht(b@), n as nat),
                        az@.len() == n,
                        zeile@.len() == n,
                        k_block <= k < k_max <= n,
                        j_block < j_max <= n,
                        optimiert == az@[k as int],
                        forall|l: int| 0 <= l < j_block ==> #[trigger] zeile@[l] == skalarprodukt(az@, ansicht(b@), l, k_max as nat),
                        forall|l: int| j_block <= l < j ==> #[trigger] zeile@[l] == skalarprodukt(az@, ansicht(b@), l, (k + 1) as nat),
                        forall|l: int| j <= l < j_max ==> #[trigger] zeile@[l] == skalarprodukt(az@, ansicht(b@), l, k as nat),
                        forall|l: int| j_max <= l < n ==> #[trigger] zeile@[l] == skalarprodukt(az@, ansicht(b@), l, k_block as nat),
                {
                    assert(ansicht(b@)[k as int] == b@[k as int]@);
                    let neu: T = zeile[j].plus(optimiert.mal(b[k][j]));
                    zeile.set(j, neu);
                }
            }
            j_block = j_max;
        }
        k_block = k_max;
    }
    zeile
}


/// Der Vektorkern: je `SPUREN` benachbarte Spalten auf einmal. Der
/// Eintrag von `a` steht in allen Spuren, daneben `SPUREN` Eintraege
/// einer Zeile von `b`; summiert wird ueber alle Glieder, gespeichert
/// danach. Die letzten `n % SPUREN` Spalten werden einzeln berechnet.
pub fn zeile_vektor<T: Skalar>(a: &Vec<Vec<T>>, b: &Vec<Vec<T>>, i: usize, n: usize) -> (zeile: Vec<T>)
    requires
        quadratisch(ansicht(a@), n as nat),
        quadratisch(ansicht(b@), n as nat),
        i < n,
    ensures
        zeile@ == produktzeile(a@[i as int]@, ansicht(b@), n as nat),
{
    let rest: usize = (n / SPUREN) * SPUREN;
    let mut zeile: Vec<T> = nullzeile(n);
    let az: &Vec<T> = &a[i];
    assert(az@ == ansicht(a@)[i as int]);
    let mut j: usize = 0;
    while j < rest
        invariant
            quadratisch(ansicht(b@), n as nat),
            az@.len() == n,
            zeile@.len() == n,
            rest == (n / SPUREN) * SPUREN,
            j <= rest,
            j % SPUREN == 0,
            forall|l: int| 0 <= l < j ==> #[trigger] zeile@[l] == skalarprodukt(az@, ansicht(b@), l, n as nat),
        decreases rest - j,
    {
        assert(j + 3 < n);
        let mut summe: Vierfach<T> = Vierfach::gleich(T::null());
        for k in 0..n
            invariant
                quadratisch(ansicht(b@), n as nat),
                az@.len() == n,
                j + 3 < n,
                summe@.len() == SPUREN,
                forall|l: int| 0 <= l < SPUREN ==> #[trigger] summe@[l] == skalarprodukt(az@, ansicht(b@), j + l, k as nat),
        {
            assert(ansicht(b@)[k as int] == b@[k as int]@);
            let teil1: Vierfach<T> = Vierfach::gleich(az[k]);
            let teil2: Vierfach<T> = Vierfach::aus_feld([b[k][j], b[k][j + 1], b[k][j + 2], b[k][j + 3]]);
            summe = summe.plus(teil1.mal(teil2));
        }
        let zwischen: [T; 4] = summe.als_feld();
        for l in 0..SPUREN
            invariant
                zeile@.len() == n,
                j + 3 < n,
                zwischen@.len() == SPUREN,
                forall|m: int| 0 <= m < SPUREN ==> #[trigger] zwischen@[m] == skalarprodukt(az@, ansicht(b@), j + m, n as nat),
                forall|m: int| 0 <= m < j + l ==> #[trigger] zeile@[m] == skalarprodukt(az@, ansicht(b@), m, n as nat),
        {
            zeile.set(j + l, zwischen[l]);
        }
        j = j + SPUREN;
    }
    for x in rest..n
        invariant
            quadratisch(ansicht(b@), n as nat),
            az@.len() == n,
            zeile@.len() == n,
            rest <= n,
            forall|l: int| 0 <= l < x ==> #[trigger] zeile@[l] == skalarprodukt(az@, ansicht(b@), l, n as nat),
    {
        let mut summe2: T = T::null();
        for y in 0..n
            invariant
                quadratisch(ansicht(b@), n as nat),
                az@.len() == n,
                x < n,
                summe2 == skalarprodukt(az@, ansicht(b@), x as int, y as nat),
        {
            assert(ansicht(b@)[y as int] == b@[y as int]@);
            summe2 = summe2.plus(az[y].mal(b[y][x]));
        }
        zeile.set(x, summe2);
    }
    zeile
}

/// Der gekachelte Vektorkern: Kacheln wie im gekachelten Kern, hier
/// aussen die der Spalten und innen die der Glieder. In einer Kachel
/// laufen die Spalten in Schritten von `SPUREN`, vier Spuren zugleich;
/// bleiben bis zum Ende der Kachel weniger als `SPUREN` Spalten, werden
/// sie einzeln berechnet.
pub fn zeile_gekachelt_vektor<T: Skalar>(a: &Vec<Vec<T>>, b: &Vec<Vec<T>>, i: usize, n: usize) -> (zeile: Vec<T>)
    requires
        quadratisch(ansicht(a@), n as nat),
        quadratisch(ansicht(b@), n as nat),
        i < n,
    ensures
        zeile@ == produktzeile(a@[i as int]@, ansicht(b@), n as nat),
{
    let mut zeile: Vec<T> = nullzeile(n);
    let az: &Vec<T> = &a[i];
    assert(az@ == ansicht(a@)[i as int]);
    let mut j_block: usize = 0;
    while j_block < n
        invariant
            quadratisch(ansicht(b@), n as nat),
            az@.len() == n,
            zeile@.len() == n,
            j_block <= n,
            forall|l: int| 0 <= l < j_block ==> #[trigger] zeile@[l] == skalarprodukt(az@, ansicht(b@), l, n as nat),
            forall|l: int| j_block <= l < n ==> #[trigger] zeile@[l] == skalarprodukt(az@, ansicht(b@), l, 0),
        decreases n - j_block,
    {
        let j_max: usize = kachelende(j_block, n);
        let mut k_block: usize = 0;
        while k_block < n
            invariant
                quadratisch(ansicht(b@), n as nat),
                az@.len() == n,
                zeile@.len() == n,
                j_block < j_max <= n,
                k_block <= n,
                forall|l: int| 0 <= l < j_block ==> #[trigger] zeile@[l] == skalarprodukt(az@, ansicht(b@), l, n as nat),
                forall|l: int| j_block <= l < j_max ==> #[trigger] zeile@[l] == skalarprodukt(az@, ansicht(b@), l, k_block as nat),
                forall|l: int| j_max <= l < n ==> #[trigger] zeile@[l] == skalarprodukt(az@, ansicht(b@), l, 0),
            decreases n - k_block,
        {
            let k_max: usize = kachelende(k_block, n);
            for k in k_block..k_max
                invariant
                    quadratisch(ansicht(b@), n as nat),
                    az@.len() == n,
                    zeile@.len() == n,
                    j_block < j_max <= n,
                    k_block < k_max <= n,
                    forall|l: int| 0 <= l < j_block ==> #[trigger] zeile@[l] == skalarprodukt(az@, ansicht(b@), l, n as nat),
                    forall|l: int| j_block <= l < j_max ==> #[trigger] zeile@[l] == skalarprodukt(az@, ansicht(b@), l, k as nat),
                    forall|l: int| j_max <= l < n ==> #[trigger] zeile@[l] == skalarprodukt(az@, ansicht(b@), l, 0),
            {
                assert(ansicht(b@)[k as int] == b@[k as int]@);
                let mut j: usize = j_block;
                while j < j_max
                    invariant
                        quadratisch(ansicht(b@), n as nat),
                        az@.len() == n,
                        zeile@.len() == n,
                        j_block < j_max <= n,
                        k_block <= k < k_max <= n,
                        j_block <= j,
                        ansicht(b@)[k as int] == b@[k as int]@,
                        forall|l: int| 0 <= l < j_block ==> #[trigger] zeile@[l] == skalarprodukt(az@, ansicht(b@), l, n as nat),
                        forall|l: int| j_block <= l < j && l < j_max ==> #[trigger] zeile@[l] == skalarprodukt(az@, ansicht(b@), l, (k + 1) as nat),
                        forall|l: int| j <= l < j_max ==> #[trigger] zeile@[l] == skalarprodukt(az@, ansicht(b@), l, k as nat),
                        forall|l: int| j_max <= l < n ==> #[trigger] zeile@[l] == skalarprodukt(az@, ansicht(b@), l, 0),
                    decreases j_max - j,
                {
                    if j_max - j >= SPUREN {
                        let mut summe: Vierfach<T> = Vierfach::aus_feld([zeile[j], zeile[j + 1], zeile[j + 2], zeile[j + 3]]);
                        let teil1: Vierfach<T> = Vierfach::gleich(az[k]);
                        let teil2: Vierfach<T> = Vierfach::aus_feld([b[k][j], b[k][j + 1], b[k][j + 2], b[k][j + 3]]);
                        summe = summe.plus(teil1.mal(teil2));
                        let zwischen: [T; 4] = summe.als_feld();
                        for l in 0..SPUREN
                            invariant
                                zeile@.len() == n,
                                j_block <= j,
                                j + SPUREN <= j_max <= n,
                                k < n,
                                zwischen@.len() == SPUREN,
                                forall|m: int| 0 <= m < SPUREN ==> #[trigger] zwischen@[m] == skalarprodukt(az@, ansicht(b@), j + m, (k + 1) as nat),
                                forall|m: int| 0 <= m < j_block ==> #[trigger] zeile@[m] == skalarprodukt(az@, ansicht(b@), m, n as nat),
                                forall|m: int| j_block <= m < j + l ==> #[trigger] zeile@[m] == skalarprodukt(az@, ansicht(b@), m, (k + 1) as nat),
                                forall|m: int| j + l <= m < j_max ==> #[trigger] zeile@[m] == skalarprodukt(az@, ansicht(b@), m, k as nat),
                                forall|m: int| j_max <= m < n ==> #[trigger] zeile@[m] == skalarprodukt(az@, ansicht(b@), m, 0),
                        {
                            zeile.set(j + l, zwischen[l]);
                        }
                        j = j + SPUREN;
                    } else {
                        for m in j..j_max
                            invariant
                                quadratisch(ansicht(b@), n as nat),
                                az@.len() == n,
                                zeile@.len() == n,
                                j_block <= j,
                                j_max <= n,
                                k < n,
                                ansicht(b@)[k as int] == b@[k as int]@,
                                forall|l: int| 0 <= l < j_block ==> #[trigger] zeile@[l] == skalarprodukt(az@, ansicht(b@), l, n as nat),
                                forall|l: int| j_block <= l < m ==> #[trigger] zeile@[l] == skalarprodukt(az@, ansicht(b@), l, (k + 1) as nat),
                                forall|l: int| m <= l < j_max ==> #[trigger] zeile@[l] == skalarprodukt(az@, ansicht(b@), l, k as nat),
                                forall|l: int| j_max <= l < n ==> #[trigger] zeile@[l] == skalarprodukt(az@, ansicht(b@), l, 0),
                        {
                            let neu: T = zeile[m].plus(az[k].mal(b[k][m]));
                            zeile.set(m, neu);
                        }
                        j = j_max;
                    }
                }
            }
            k_block = k_max;
        }
        j_block = j_max;
    }
    zeile
}

} // verus!
