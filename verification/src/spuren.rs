//! Vier Eintraege nebeneinander, auf die eine Rechenoperation in einem
//! Schritt wirkt: jede Spur rechnet fuer sich.

use crate::skalar::Skalar;
use vstd::prelude::*;

verus! {

/// Die Zahl der Spuren.
pub const SPUREN: usize = 4;

/// Vier Spuren. Die Ansicht ist die Folge ihrer vier Eintraege.
pub struct Vierfach<T> {
    spur: [T; 4],
}

impl<T: Skalar> Vierfach<T> {
    /// Die vier Eintraege, die erste Spur zuerst.
    pub closed spec fn view(&self) -> Seq<T> {
        self.spur@
    }

    /// Derselbe Wert in allen vier Spuren.
    pub fn gleich(x: T) -> (v: Self)
        ensures
            v@ == seq![x, x, x, x],
    {
        Vierfach { spur: [x, x, x, x] }
    }

    /// Die vier Eintraege eines Feldes als Spuren.
    pub fn aus_feld(feld: [T; 4]) -> (v: Self)
        ensures
            v@ == feld@,
    {
        Vierfach { spur: feld }
    }

    /// Die Spuren als Feld.
    pub fn als_feld(self) -> (feld: [T; 4])
        ensures
            feld@ == self@,
    {
        self.spur
    }

    /// Die Summe, Spur fuer Spur.
    pub fn plus(self, rechts: Self) -> (v: Self)
        ensures
            v@.len() == SPUREN,
            forall|l: int| 0 <= l < SPUREN ==> #[trigger] v@[l] == self@[l].summe(rechts@[l]),
    {
        Vierfach {
            spur: [
                self.spur[0].plus(rechts.spur[0]),
                self.spur[1].plus(rechts.spur[1]),
                self.spur[2].plus(rechts.spur[2]),
                self.spur[3].plus(rechts.spur[3]),
            ],
        }
    }

    /// Das Produkt, Spur fuer Spur.
    pub fn mal(self, rechts: Self) -> (v: Self)
        ensures
            v@.len() == SPUREN,
            forall|l: int| 0 <= l < SPUREN ==> #[trigger] v@[l] == self@[l].produkt(rechts@[l]),
    {
        Vierfach {
            spur: [
                self.spur[0].mal(rechts.spur[0]),
                self.spur[1].mal(rechts.spur[1]),
                self.spur[2].mal(rechts.spur[2]),
                self.spur[3].mal(rechts.spur[3]),
            ],
        }
    }
}

} // verus!
