//! Das mathematische Modell: Matrizen als Folgen von Zeilen, das
//! Skalarprodukt als Summe von links nach rechts, und daraus das Produkt.

use crate::skalar::Skalar;
use vstd::prelude::*;

verus! {

/// Eine Matrix im Speicher, gelesen als Folge ihrer Zeilen.
pub open spec fn ansicht<T>(m: Seq<Vec<T>>) -> Seq<Seq<T>> {
    Seq::new(m.len(), |i: int| m[i]@)
}

/// Ob `m` genau `n` Zeilen mit je `n` Eintraegen hat.
pub open spec fn quadratisch<T>(m: Seq<Seq<T>>, n: nat) -> bool {
    &&& m.len() == n
    &&& forall|i: int| 0 <= i < n ==> (#[trigger] m[i]).len() == n
}

/// Die Summe der ersten `k` Glieder `zeile[l] * b[l][j]`, bei Null
/// begonnen und Glied fuer Glied von links nach rechts aufaddiert.
pub open spec fn skalarprodukt<T: Skalar>(zeile: Seq<T>, b: Seq<Seq<T>>, j: int, k: nat) -> T
    decreases k,
{
    if k == 0 {
        T::null_wert()
    } else {
        skalarprodukt(zeile, b, j, (k - 1) as nat).summe(zeile[k - 1].produkt(b[k - 1][j]))
    }
}

/// Die Zeile des Produkts, die aus `zeile` und der ganzen Matrix `b`
/// entsteht.
pub open spec fn produktzeile<T: Skalar>(zeile: Seq<T>, b: Seq<Seq<T>>, n: nat) -> Seq<T> {
    Seq::new(n, |j: int| skalarprodukt(zeile, b, j, n))
}

/// Das Produkt zweier Matrizen mit `n` Zeilen und Spalten.
pub open spec fn matrixprodukt<T: Skalar>(a: Seq<Seq<T>>, b: Seq<Seq<T>>, n: nat) -> Seq<Seq<T>> {
    Seq::new(n, |i: int| produktzeile(a[i], b, n))
}

/// Der Eintrag in Zeile `i` und Spalte `j` des Produkts ist das
/// Skalarprodukt der Zeile `i` von `a` mit der Spalte `j` von `b`, ueber
/// alle `n` Glieder; das Produkt hat `n` Zeilen zu je `n` Eintraegen.
pub proof fn eintraege_des_produkts<T: Skalar>(a: Seq<Seq<T>>, b: Seq<Seq<T>>, n: nat)
    ensures
        quadratisch(matrixprodukt(a, b, n), n),
        forall|i: int, j: int|
            0 <= i < n && 0 <= j < n ==> #[trigger] matrixprodukt(a, b, n)[i][j] == skalarprodukt(a[i], b, j, n),
{
}

/// Was auf zwei Wegen als Produkt derselben Matrizen entstanden ist,
/// stimmt Eintrag fuer Eintrag ueberein: zwischen dem Ergebnis einer
/// Strategie und dem der Referenz liegt kein Unterschied, auch kein
/// kleiner.
pub proof fn wie_die_referenz<T: Skalar>(
    a: Seq<Seq<T>>,
    b: Seq<Seq<T>>,
    n: nat,
    ergebnis: Seq<Seq<T>>,
    referenz: Seq<Seq<T>>,
)
    requires
        ergebnis == matrixprodukt(a, b, n),
        referenz == matrixprodukt(a, b, n),
    ensures
        forall|i: int, j: int| 0 <= i < n && 0 <= j < n ==> #[trigger] ergebnis[i][j] == referenz[i][j],
{
}

/// Eine Zeile aus `n` Nullen.
pub fn nullzeile<T: Skalar>(n: usize) -> (zeile: Vec<T>)
    ensures
        zeile@ == Seq::new(n as nat, |j: int| T::null_wert()),
{
    let mut zeile: Vec<T> = Vec::with_capacity(n);
    for j in 0..n
        invariant
            zeile@ == Seq::new(j as nat, |l: int| T::null_wert()),
    {
        zeile.push(T::null());
    }
    zeile
}

/// Eine Matrix aus `n` Zeilen mit je `n` Nullen.
pub fn nullmatrix<T: Skalar>(n: usize) -> (m: Vec<Vec<T>>)
    ensures
        ansicht(m@) == Seq::new(n as nat, |i: int| Seq::new(n as nat, |j: int| T::null_wert())),
        quadratisch(ansicht(m@), n as nat),
{
    let mut m: Vec<Vec<T>> = Vec::with_capacity(n);
    for i in 0..n
        invariant
            m.len() == i,
            forall|l: int| 0 <= l < i ==> (#[trigger] m@[l])@ == Seq::new(n as nat, |j: int| T::null_wert()),
    {
        m.push(nullzeile(n));
    }
    m
}

} // verus!
