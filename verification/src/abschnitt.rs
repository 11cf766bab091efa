//! Zeilenabschnitte: zusammenhaengende Bereiche von Zeilennummern, wie
//! sie ein Arbeiter auf einmal uebernimmt, und die Folge der Abschnitte,
//! in die eine Matrix zerfaellt.

use vstd::prelude::*;

verus! {

/// So viele Zeilen uebernimmt ein Arbeiter auf einmal.
pub const ZEILEN: usize = 4;

/// Die Zeilen `anfang..ende`.
#[derive(Clone, Copy, Debug, PartialEq, Eq, Structural)]
pub struct Abschnitt {
    pub anfang: usize,
    pub ende: usize,
}

/// Der Abschnitt, der bei `anfang` beginnt, in einer Matrix mit `n`
/// Zeilen: er reicht `ZEILEN` Zeilen weit, hoechstens aber bis `n`.
pub open spec fn abschnitt_bei(anfang: nat, n: nat) -> Abschnitt {
    Abschnitt {
        anfang: anfang as usize,
        ende: (if anfang + ZEILEN <= n {
            anfang + ZEILEN
        } else {
            n as int
        }) as usize,
    }
}

/// Der Abschnitt zu einem Anfang, den ein Verteiler ausgegeben hat.
/// Jenseits der letzten Zeile beginnt keiner.
pub open spec fn abschnitt_ab(anfang: nat, n: nat) -> Option<Abschnitt> {
    if anfang < n {
        Some(abschnitt_bei(anfang, n))
    } else {
        None
    }
}

/// Die Zahl der Abschnitte von `anfang` an: die Zahl der Zeilen
/// `anfang..n`, durch `ZEILEN` geteilt und aufgerundet.
pub open spec fn anzahl_ab(anfang: nat, n: nat) -> nat {
    if anfang < n {
        ((n - anfang + ZEILEN - 1) / ZEILEN as int) as nat
    } else {
        0
    }
}

/// Die Abschnitte von `anfang` an, in der Reihenfolge ihrer Ausgabe:
/// der Abschnitt mit der Nummer `k` beginnt bei `anfang + ZEILEN * k`.
pub open spec fn restliche_abschnitte(anfang: nat, n: nat) -> Seq<Abschnitt> {
    Seq::new(anzahl_ab(anfang, n), |k: int| abschnitt_bei((anfang + ZEILEN * k) as nat, n))
}

/// Die Zahl der Abschnitte einer Matrix mit `n` Zeilen: `n / ZEILEN`,
/// aufgerundet.
pub open spec fn anzahl_abschnitte(n: nat) -> nat {
    anzahl_ab(0, n)
}

/// Alle Abschnitte einer Matrix mit `n` Zeilen.
pub open spec fn abschnitte(n: nat) -> Seq<Abschnitt> {
    restliche_abschnitte(0, n)
}

impl Abschnitt {
    /// Ob `zeile` im Abschnitt liegt.
    pub open spec fn enthaelt(self, zeile: int) -> bool {
        self.anfang <= zeile < self.ende
    }

    /// Ob der Abschnitt in einer Matrix mit `n` Zeilen liegt.
    pub open spec fn liegt_in(self, n: nat) -> bool {
        self.anfang <= self.ende <= n
    }

    /// Der Abschnitt, der bei `anfang` beginnt. Liegt `anfang` jenseits
    /// der letzten Zeile, ist er leer.
    pub fn bei(anfang: usize, n: usize) -> (r: Abschnitt)
        ensures
            r == abschnitt_bei(anfang as nat, n as nat),
    {
        if anfang >= n || n - anfang < ZEILEN {
            Abschnitt { anfang, ende: n }
        } else {
            Abschnitt { anfang, ende: anfang + ZEILEN }
        }
    }

    /// Der Abschnitt zu einem Anfang, den ein Verteiler ausgegeben hat,
    /// oder `None`, wenn die Arbeit erschoepft ist.
    pub fn ab(anfang: usize, n: usize) -> (r: Option<Abschnitt>)
        ensures
            r == abschnitt_ab(anfang as nat, n as nat),
    {
        if anfang >= n {
            None
        } else {
            Some(Abschnitt::bei(anfang, n))
        }
    }
}

/// Ob jeder Abschnitt der Folge in einer Matrix mit `n` Zeilen liegt.
pub open spec fn alle_liegen_in(folge: Seq<Abschnitt>, n: nat) -> bool {
    forall|k: int| 0 <= k < folge.len() ==> (#[trigger] folge[k]).liegt_in(n)
}

/// Liegen alle Abschnitte einer Folge in der Matrix, dann auch die, die
/// nach dem ersten kommen.
pub proof fn rest_liegt_in(folge: Seq<Abschnitt>, n: nat)
    requires
        alle_liegen_in(folge, n),
        folge.len() > 0,
    ensures
        folge[0].liegt_in(n),
        alle_liegen_in(folge.skip(1), n),
{
    assert forall|k: int| 0 <= k < folge.skip(1).len() implies (#[trigger] folge.skip(1)[k]).liegt_in(n) by {
        assert(folge.skip(1)[k] == folge[k + 1]);
    }
}

/// Wer den ersten Abschnitt nimmt, laesst die Abschnitte vom naechsten
/// Anfang an zurueck.
pub proof fn nach_dem_ersten(anfang: nat, n: nat)
    requires
        anfang < n,
    ensures
        restliche_abschnitte(anfang, n).len() > 0,
        restliche_abschnitte(anfang, n)[0] == abschnitt_bei(anfang, n),
        restliche_abschnitte(anfang, n).skip(1) == restliche_abschnitte(anfang + ZEILEN as nat, n),
{
    let rest = restliche_abschnitte(anfang + ZEILEN as nat, n);
    assert(restliche_abschnitte(anfang, n).skip(1) =~= rest) by {
        assert forall|k: int| 0 <= k < rest.len() implies restliche_abschnitte(anfang, n).skip(1)[k] == rest[k] by {
            assert(anfang + ZEILEN * (k + 1) == anfang + ZEILEN + ZEILEN * k);
        }
    }
}

/// Die Nummer des Abschnitts, in dem `zeile` liegt.
pub open spec fn nummer_von(zeile: int) -> int {
    zeile / (ZEILEN as int)
}

/// Die Abschnitte ueberdecken die Zeilen `0..n` genau: jede Zeile liegt
/// in einem Abschnitt und in keinem zweiten, zwei verschiedene
/// Abschnitte teilen sich also keine Zeile; kein Abschnitt ist leer oder
/// reicht ueber die Matrix hinaus, und es sind `n / ZEILEN` Abschnitte,
/// aufgerundet.
pub proof fn abschnitte_zerlegen_die_zeilen(n: nat)
    requires
        n <= usize::MAX,
    ensures
        abschnitte(n).len() == (n + ZEILEN - 1) / (ZEILEN as int),
        forall|zeile: int|
            0 <= zeile < n ==> 0 <= #[trigger] nummer_von(zeile) < abschnitte(n).len() && abschnitte(
                n,
            )[nummer_von(zeile)].enthaelt(zeile),
        forall|k: int, zeile: int|
            0 <= k < abschnitte(n).len() && #[trigger] abschnitte(n)[k].enthaelt(zeile) ==> 0 <= zeile < n
                && k == nummer_von(zeile),
        forall|k: int, l: int, zeile: int|
            0 <= k < abschnitte(n).len() && 0 <= l < abschnitte(n).len() && #[trigger] abschnitte(n)[k].enthaelt(
                zeile,
            ) && #[trigger] abschnitte(n)[l].enthaelt(zeile) ==> k == l,
        forall|k: int|
            0 <= k < abschnitte(n).len() ==> (#[trigger] abschnitte(n)[k]).anfang < abschnitte(n)[k].ende,
        alle_liegen_in(abschnitte(n), n),
{
}

/// Eine leere Matrix hat keinen Abschnitt, und eine Matrix mit
/// hoechstens `ZEILEN` Zeilen hat genau einen, der alle ihre Zeilen
/// umfasst.
pub proof fn kleine_matrix(n: nat)
    requires
        n <= ZEILEN,
    ensures
        n == 0 ==> abschnitte(n) == Seq::<Abschnitt>::empty(),
        n > 0 ==> abschnitte(n) == seq![Abschnitt { anfang: 0, ende: n as usize }],
{
    if n == 0 {
        assert(abschnitte(n) =~= Seq::<Abschnitt>::empty());
    } else {
        assert(abschnitte(n) =~= seq![Abschnitt { anfang: 0, ende: n as usize }]);
    }
}

} // verus!
