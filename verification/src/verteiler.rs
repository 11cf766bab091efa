//! Die Verteiler: sie geben die Abschnitte einer Matrix aus, jeden
//! einmal. Der Zaehler fuehrt nur die naechste Zeile; die Warteschlange
//! haelt alle Anfaenge vorab bereit.
//!
//! Ein Verteiler gehoert dem, der ihn fragt. Threads, die sich die
//! Arbeit teilen, erhoehen stattdessen einen gemeinsamen atomaren
//! Zaehler um `ZEILEN` und geben den alten Stand an `Abschnitt::ab`.

use crate::abschnitt::{abschnitt_ab, abschnitte, nach_dem_ersten, restliche_abschnitte, Abschnitt, ZEILEN};
use vstd::prelude::*;

verus! {

/// Was ein Verteiler koennen muss: den naechsten Abschnitt ausgeben.
pub trait Verteiler {
    /// Die Abschnitte, die noch nicht ausgegeben sind, in der
    /// Reihenfolge ihrer Ausgabe.
    spec fn ausstehend(&self) -> Seq<Abschnitt>;

    /// Gibt den naechsten Abschnitt aus, oder `None`, wenn keiner mehr
    /// aussteht.
    fn nimm(&mut self) -> (r: Option<Abschnitt>)
        ensures
            old(self).ausstehend().len() == 0 ==> r is None && final(self).ausstehend().len() == 0,
            old(self).ausstehend().len() > 0 ==> r == Some(old(self).ausstehend()[0])
                && final(self).ausstehend() == old(self).ausstehend().skip(1),
    ;
}

/// Der Zaehler: die Nummer der naechsten Zeile, die noch niemand
/// uebernommen hat, in einer Matrix mit `n` Zeilen.
pub struct Zaehler {
    stand: usize,
    n: usize,
}

impl Zaehler {
    /// Die naechste Zeile, die noch niemand uebernommen hat.
    pub closed spec fn stand(&self) -> nat {
        self.stand as nat
    }

    /// Die Zahl der Zeilen der Matrix.
    pub closed spec fn zeilen(&self) -> nat {
        self.n as nat
    }

    /// Ein Zaehler, der bei der ersten Zeile steht.
    pub fn neu(n: usize) -> (z: Zaehler)
        ensures
            z.stand() == 0,
            z.zeilen() == n,
            z.ausstehend() == abschnitte(n as nat),
    {
        Zaehler { stand: 0, n }
    }
}

impl Verteiler for Zaehler {
    open spec fn ausstehend(&self) -> Seq<Abschnitt> {
        restliche_abschnitte(self.stand(), self.zeilen())
    }

    /// Erhoeht den Stand um `ZEILEN` und gibt den Abschnitt aus, der
    /// beim alten Stand beginnt; ab der letzten Zeile gibt es keinen.
    /// Der Stand waechst nur: am Ende des Zahlbereichs bleibt er stehen.
    fn nimm(&mut self) -> (r: Option<Abschnitt>)
        ensures
            r == abschnitt_ab(old(self).stand(), old(self).zeilen()),
            final(self).zeilen() == old(self).zeilen(),
            final(self).stand() == if old(self).stand() + ZEILEN <= usize::MAX {
                old(self).stand() + ZEILEN
            } else {
                usize::MAX as int
            },
    {
        let anfang: usize = self.stand;
        self.stand = if usize::MAX - anfang < ZEILEN {
            usize::MAX
        } else {
            anfang + ZEILEN
        };
        proof {
            if anfang < self.n {
                nach_dem_ersten(anfang as nat, self.n as nat);
                assert(restliche_abschnitte(self.stand as nat, self.n as nat) =~= restliche_abschnitte(
                    (anfang + ZEILEN) as nat,
                    self.n as nat,
                ));
            }
        }
        Abschnitt::ab(anfang, self.n)
    }
}

} // verus!
