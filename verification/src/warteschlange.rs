//! Die Warteschlange: ein Kanal, in dem die Anfaenge aller Abschnitte
//! bereitliegen, bevor der erste Arbeiter beginnt.

use crate::abschnitt::{abschnitt_bei, abschnitte, anzahl_abschnitte, Abschnitt, ZEILEN};
use crate::verteiler::Verteiler;
use vstd::prelude::*;

verus! {

/// `crossbeam::channel::Sender`: das sendende Ende eines Kanals. Was in
/// ihm steckt, bleibt verborgen.
#[verifier::external_type_specification]
#[verifier::external_body]
#[verifier::reject_recursive_types(T)]
pub struct ExSender<T>(::crossbeam::channel::Sender<T>);

/// `crossbeam::channel::Receiver`: das empfangende Ende eines Kanals.
/// Was in ihm steckt, bleibt verborgen.
#[verifier::external_type_specification]
#[verifier::external_body]
#[verifier::reject_recursive_types(T)]
pub struct ExReceiver<T>(::crossbeam::channel::Receiver<T>);

/// Was im Kanal wartet, vom empfangenden Ende her gesehen: die Anfaenge,
/// die gesendet und noch nicht empfangen sind, der aelteste zuerst.
pub uninterp spec fn wartend(empfaenger: ::crossbeam::channel::Receiver<usize>) -> Seq<usize>;

/// Ob `sender` und `empfaenger` die beiden Enden eines Kanals sind, wie
/// `unbounded` sie als Paar liefert.
pub uninterp spec fn verbunden(
    sender: ::crossbeam::channel::Sender<usize>,
    empfaenger: ::crossbeam::channel::Receiver<usize>,
) -> bool;

/// Ruft `crossbeam::channel::unbounded`: ein neuer Kanal ohne
/// Obergrenze, in dem noch nichts wartet, mit seinen beiden Enden.
#[verifier::external_body]
fn kanal() -> (enden: (::crossbeam::channel::Sender<usize>, ::crossbeam::channel::Receiver<usize>))
    ensures
        wartend(enden.1) == Seq::<usize>::empty(),
        verbunden(enden.0, enden.1),
{
    ::crossbeam::channel::unbounded()
}

/// Ruft `Sender::send`: `anfang` reiht sich hinter allem ein, was im
/// Kanal wartet. Ein Kanal ohne Obergrenze nimmt immer an, solange sein
/// Empfaenger lebt, und der liegt hier vor. Der Empfaenger steht in der
/// Signatur, weil sich aendert, was an ihm wartet.
#[verifier::external_body]
fn sende(
    sender: &::crossbeam::channel::Sender<usize>,
    empfaenger: &mut ::crossbeam::channel::Receiver<usize>,
    anfang: usize,
)
    requires
        verbunden(*sender, *old(empfaenger)),
    ensures
        wartend(*final(empfaenger)) == wartend(*old(empfaenger)).push(anfang),
        verbunden(*sender, *final(empfaenger)),
{
    let _ = sender.send(anfang);
}

/// Ruft `Receiver::try_recv`: nimmt den aeltesten wartenden Anfang aus
/// dem Kanal, ohne zu warten; `None`, wenn nichts wartet. Gilt fuer
/// einen Empfaenger, den sich niemand teilt.
#[verifier::external_body]
fn empfange(empfaenger: &mut ::crossbeam::channel::Receiver<usize>) -> (anfang: Option<usize>)
    ensures
        wartend(*old(empfaenger)).len() == 0 ==> anfang is None && wartend(*final(empfaenger)) == wartend(
            *old(empfaenger),
        ),
        wartend(*old(empfaenger)).len() > 0 ==> anfang == Some(wartend(*old(empfaenger))[0]) && wartend(
            *final(empfaenger),
        ) == wartend(*old(empfaenger)).skip(1),
{
    empfaenger.try_recv().ok()
}

/// Die Warteschlange einer Matrix mit `n` Zeilen.
pub struct Warteschlange {
    empfaenger: ::crossbeam::channel::Receiver<usize>,
    n: usize,
}

impl Warteschlange {
    /// Die Anfaenge, die noch warten, der aelteste zuerst.
    pub closed spec fn anfaenge(&self) -> Seq<usize> {
        wartend(self.empfaenger)
    }

    /// Die Zahl der Zeilen der Matrix.
    pub closed spec fn zeilen(&self) -> nat {
        self.n as nat
    }

    /// Eine Warteschlange mit den Anfaengen `0, ZEILEN, 2 * ZEILEN, ...`
    /// unterhalb von `n`. Der Sender wird danach aufgegeben: der Kanal
    /// ist geschlossen, und wer ihn abhoert, wartet am Ende nicht.
    pub fn gefuellt(n: usize) -> (w: Warteschlange)
        ensures
            w.zeilen() == n,
            w.anfaenge() == Seq::new(anzahl_abschnitte(n as nat), |k: int| (ZEILEN * k) as usize),
            w.ausstehend() == abschnitte(n as nat),
    {
        let (sender, mut empfaenger) = kanal();
        let mut i: usize = 0;
        let ghost mut gesendet: nat = 0;
        while i < n
            invariant
                verbunden(sender, empfaenger),
                i <= n,
                i < n ==> i == ZEILEN * gesendet,
                i == n ==> gesendet == anzahl_abschnitte(n as nat),
                wartend(empfaenger) == Seq::new(gesendet, |k: int| (ZEILEN * k) as usize),
            decreases n - i,
        {
            sende(&sender, &mut empfaenger, i);
            proof {
                assert(Seq::new(gesendet, |k: int| (ZEILEN * k) as usize).push(i) =~= Seq::new(
                    gesendet + 1,
                    |k: int| (ZEILEN * k) as usize,
                ));
                gesendet = gesendet + 1;
            }
            if n - i <= ZEILEN {
                i = n;
            } else {
                i = i + ZEILEN;
            }
        }
        let w = Warteschlange { empfaenger, n };
        assert(w.ausstehend() =~= abschnitte(n as nat));
        w
    }

    /// Gibt den Empfaenger heraus, damit sich mehrere Threads die
    /// Warteschlange teilen koennen.
    pub fn empfaenger(self) -> (e: ::crossbeam::channel::Receiver<usize>)
        ensures
            wartend(e) == self.anfaenge(),
    {
        self.empfaenger
    }
}

impl Verteiler for Warteschlange {
    open spec fn ausstehend(&self) -> Seq<Abschnitt> {
        Seq::new(self.anfaenge().len(), |k: int| abschnitt_bei(self.anfaenge()[k] as nat, self.zeilen()))
    }

    /// Nimmt den aeltesten Anfang aus dem Kanal und gibt seinen
    /// Abschnitt aus.
    fn nimm(&mut self) -> (r: Option<Abschnitt>)
        ensures
            final(self).zeilen() == old(self).zeilen(),
            old(self).anfaenge().len() == 0 ==> final(self).anfaenge() == old(self).anfaenge(),
            old(self).anfaenge().len() > 0 ==> final(self).anfaenge() == old(self).anfaenge().skip(1),
    {
        match empfange(&mut self.empfaenger) {
            None => None,
            Some(anfang) => {
                assert(self.ausstehend() =~= old(self).ausstehend().skip(1));
                Some(Abschnitt::bei(anfang, self.n))
            },
        }
    }
}

} // verus!
