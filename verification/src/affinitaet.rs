//! Einen Arbeiter an einen Prozessorkern binden.

use core_affinity::CoreId;
use vstd::prelude::*;

verus! {

/// `core_affinity::CoreId`: ein Prozessorkern, benannt durch seine
/// Nummer im oeffentlichen Feld `id`.
#[verifier::external_type_specification]
pub struct ExCoreId(CoreId);

/// So viele Kerne fasst die Kernmenge, mit der Linux einen Thread
/// bindet; eine Nummer ab dieser Grenze laesst sich nicht binden.
pub const KERNE_HOECHSTENS: usize = 1024;

/// Ob die Nummer des Kerns in die Kernmenge des Betriebssystems passt.
pub open spec fn bindbar(kern: CoreId) -> bool {
    kern.id < KERNE_HOECHSTENS
}

/// Ruft `core_affinity::set_for_current`: bindet den laufenden Thread an
/// `kern` und meldet, ob das Betriebssystem die Bindung angenommen hat.
/// Ueber den Ausgang wird nichts zugesagt, er haengt von der Maschine ab.
/// Verlangt wird, dass die Nummer in die Kernmenge passt: unter Linux
/// setzt der Aufruf in ihr das Bit mit dieser Nummer, und jenseits der
/// Menge bricht er ab.
#[verifier::external_body]
pub(crate) fn binde(kern: CoreId) -> (gebunden: bool)
    requires
        bindbar(kern),
{
    core_affinity::set_for_current(kern)
}

} // verus!
