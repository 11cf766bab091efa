use core_affinity::{get_core_ids, set_for_current, CoreId};
use multiplikation::abschnitt::{Abschnitt, ZEILEN};
use multiplikation::ablauf::nacheinander;
use multiplikation::algorithmen::crossbeam;
use multiplikation::algorithmen::manuell_sicher;
use multiplikation::algorithmen::manuell_unsicher;
use multiplikation::algorithmen::rayon as mein_rayon;
use multiplikation::algorithmen::simd;
use multiplikation::algorithmen::simd_tiling;
use multiplikation::algorithmen::single;
use multiplikation::algorithmen::tiling;
use multiplikation::algorithmen::unroll;
use multiplikation::arbeiter::{arbeite, bearbeite, Kernart};
use multiplikation::direkt::{arbeite_direkt, bearbeite_direkt, direkt_nacheinander};
use multiplikation::matrix::nullmatrix;
use multiplikation::skalar::Skalar;
use multiplikation::verteiler::{Verteiler, Zaehler};
use multiplikation::warteschlange::Warteschlange;
use multiplikation::zusammenbau::{alle_einsetzen, einsetzen};
use rayon::ThreadPoolBuilder;

#[derive(Clone, Copy, Debug, PartialEq)]
struct Gleit(f64);

impl Skalar for Gleit {
    fn null_wert() -> Gleit {
        Gleit(0.0)
    }

    fn summe(self, rechts: Gleit) -> Gleit {
        Gleit(self.0 + rechts.0)
    }

    fn produkt(self, rechts: Gleit) -> Gleit {
        Gleit(self.0 * rechts.0)
    }

    fn null() -> Gleit {
        Gleit::null_wert()
    }

    fn plus(self, rechts: Gleit) -> Gleit {
        self.summe(rechts)
    }

    fn mal(self, rechts: Gleit) -> Gleit {
        self.produkt(rechts)
    }
}

type Strategie = (&'static str, fn(&Vec<Vec<Gleit>>, &Vec<Vec<Gleit>>, &mut Vec<Vec<Gleit>>, usize, usize, &Vec<CoreId>));

fn strategien() -> Vec<Strategie> {
    vec![
        ("manuell_sicher", manuell_sicher::ausfuehren::<Gleit>),
        ("manuell_unsicher", manuell_unsicher::ausfuehren::<Gleit>),
        ("crossbeam", crossbeam::ausfuehren::<Gleit>),
        ("simd", simd::ausfuehren::<Gleit>),
        ("tiling", tiling::ausfuehren::<Gleit>),
        ("simd_tiling", simd_tiling::ausfuehren::<Gleit>),
        ("unroll", unroll::ausfuehren::<Gleit>),
    ]
}

fn kerne_fuer(threads: usize) -> Vec<CoreId> {
    let vorhanden: Vec<CoreId> = get_core_ids().unwrap();
    (0..threads).map(|z| vorhanden[z % vorhanden.len()]).collect()
}

fn zufallsmatrix_2d(n: usize, saat: u64) -> Vec<Vec<Gleit>> {
    let mut zustand: u64 = saat;
    let mut m: Vec<Vec<Gleit>> = Vec::with_capacity(n);
    for _ in 0..n {
        let mut zeile: Vec<Gleit> = Vec::with_capacity(n);
        for _ in 0..n {
            zustand = zustand.wrapping_mul(6364136223846793005).wrapping_add(1442695040888963407);
            zeile.push(Gleit(((zustand >> 11) as f64) / ((1u64 << 53) as f64) * 200.0 - 100.0));
        }
        m.push(zeile);
    }
    m
}

fn nullen(n: usize) -> Vec<Vec<Gleit>> {
    vec![vec![Gleit(0.0); n]; n]
}

fn einheit(n: usize) -> Vec<Vec<Gleit>> {
    let mut m = nullen(n);
    for i in 0..n {
        m[i][i] = Gleit(1.0);
    }
    m
}

fn vergleich(a: &Vec<Vec<Gleit>>, b: &Vec<Vec<Gleit>>, n: usize) -> bool {
    let genauigkeit = 1e-10;
    for i in 0..n {
        for j in 0..n {
            if (a[i][j].0 - b[i][j].0).abs() > genauigkeit {
                return false;
            }
        }
    }
    true
}

fn von_hand(a: &Vec<Vec<Gleit>>, b: &Vec<Vec<Gleit>>, n: usize) -> Vec<Vec<Gleit>> {
    let mut c = nullen(n);
    for i in 0..n {
        for j in 0..n {
            let mut summe: f64 = 0.0;
            for k in 0..n {
                summe = summe + a[i][k].0 * b[k][j].0;
            }
            c[i][j] = Gleit(summe);
        }
    }
    c
}

#[test]
fn testen() {
    // testen mit geraden und ungerade Matritzen
    let groessen: Vec<usize> = vec![4, 5, 12, 13, 30, 33, 68, 71, 126, 131, 256, 271, 300];

    let kerne: Vec<CoreId> = get_core_ids().unwrap();

    // Es soll mit einer geraden und ungeraden Anzahl an Threads getestet werden
    let threads: Vec<usize>;
    if kerne.len() >= 5 {
        threads = vec![4, 5];
    } else if kerne.len() >= 2 {
        threads = vec![kerne.len() - 1, kerne.len()];
    } else {
        threads = vec![1];
    }

    let mut i: u32 = 1;
    for thread in threads {
        println!("Testen von Threads = {}", thread);
        for &n in &groessen {
            println!("Test {}/{}", i, groessen.len());
            i = i + 1;

            // Matrizen initialisieren
            let a: Vec<Vec<Gleit>> = zufallsmatrix_2d(n, 17 * n as u64 + 1);
            let b: Vec<Vec<Gleit>> = zufallsmatrix_2d(n, 31 * n as u64 + 2);
            let mut c: Vec<Vec<Gleit>> = nullen(n);

            // single Thread als Basis für Vergleich
            single::ausfuehren(&a, &b, &mut c, n, &kerne[0]);

            let mut ergebnis: Vec<Vec<Gleit>> = nullen(n);
            manuell_sicher::ausfuehren(&a, &b, &mut ergebnis, n, thread, &kerne);
            assert!(vergleich(&c, &ergebnis, n), "manuell_sicher.rs ist falsch für threads = {}, n = {}", thread, n);

            let mut ergebnis: Vec<Vec<Gleit>> = nullen(n);
            manuell_unsicher::ausfuehren(&a, &b, &mut ergebnis, n, thread, &kerne);
            assert!(vergleich(&c, &ergebnis, n), "manuell_unsicher.rs ist falsch für threads = {}, n = {}", thread, n);

            // Bibliothek Crossbeam testen
            ergebnis = nullen(n);
            crossbeam::ausfuehren(&a, &b, &mut ergebnis, n, thread, &kerne);
            assert!(vergleich(&c, &ergebnis, n), "crossbeam.rs ist falsch für threads = {}, n = {}", thread, n);

            // Bibliothek Rayon testen
            ergebnis = nullen(n);
            let kopie: Vec<CoreId> = kerne.clone();
            let pool: rayon::ThreadPool = ThreadPoolBuilder::new()
                .num_threads(thread)
                .start_handler(move |id| {
                    set_for_current(kopie[id]);
                })
                .build()
                .unwrap_or_else(|f| panic!("Fehler beim erstellen des Threadpools: {}", f));
            pool.install(|| {
                mein_rayon::ausfuehren(&a, &b, &mut ergebnis, n);
            });
            assert!(vergleich(&c, &ergebnis, n), "rayon.rs ist falsch für threads = {}, n = {}", thread, n);

            ergebnis = nullen(n);
            simd::ausfuehren(&a, &b, &mut ergebnis, n, thread, &kerne);
            assert!(vergleich(&c, &ergebnis, n), "simd.rs ist falsch für threads = {}, n = {}", thread, n);

            ergebnis = nullen(n);
            tiling::ausfuehren(&a, &b, &mut ergebnis, n, thread, &kerne);
            assert!(vergleich(&c, &ergebnis, n), "tiling.rs ist falsch für threads = {}, n = {}", thread, n);

            ergebnis = nullen(n);
            simd_tiling::ausfuehren(&a, &b, &mut ergebnis, n, thread, &kerne);
            assert!(vergleich(&c, &ergebnis, n), "simd_tiling.rs ist falsch für threads = {}, n = {}", thread, n);

            ergebnis = nullen(n);
            unroll::ausfuehren(&a, &b, &mut ergebnis, n, thread, &kerne);
            assert!(vergleich(&c, &ergebnis, n), "unroll.rs ist falsch für threads = {}, n = {}", thread, n);
        }
        i = 1;
    }

    println!("\nAlle Funktionen sind korrekt");
}

#[test]
fn single_rechnet_das_produkt() {
    let kerne = kerne_fuer(1);
    let a: Vec<Vec<i64>> = vec![vec![1, 2], vec![3, 4]];
    let b: Vec<Vec<i64>> = vec![vec![5, 6], vec![7, 8]];
    let mut c: Vec<Vec<i64>> = vec![vec![-1, -1], vec![-1, -1]];
    single::ausfuehren(&a, &b, &mut c, 2, &kerne[0]);
    assert_eq!(c, vec![vec![19, 22], vec![43, 50]]);
    for n in [1usize, 3, 4, 5, 8, 9, 17, 33] {
        let a = zufallsmatrix_2d(n, 1);
        let b = zufallsmatrix_2d(n, 2);
        let mut c = nullen(n);
        single::ausfuehren(&a, &b, &mut c, n, &kerne[0]);
        assert!(vergleich(&c, &von_hand(&a, &b, n), n));
        assert_eq!(c, von_hand(&a, &b, n));
    }
}

#[test]
fn single_bindet_den_aufrufenden_thread() {
    let kerne: Vec<CoreId> = get_core_ids().unwrap();
    let a = einheit(3);
    let b = einheit(3);
    for kern in &kerne {
        if set_for_current(*kern) {
            let ziel: CoreId = kerne[(kern.id + 1) % kerne.len()];
            let mut c = nullen(3);
            single::ausfuehren(&a, &b, &mut c, 3, &ziel);
            assert_eq!(c, einheit(3));
            assert_eq!(get_core_ids().unwrap(), vec![ziel]);
        }
    }
}

#[test]
fn letzter_arbeiter_bindet_zuletzt() {
    let kerne: Vec<CoreId> = get_core_ids().unwrap();
    if kerne.len() >= 2 && set_for_current(kerne[0]) {
        let a = einheit(5);
        let b = einheit(5);
        let mut c = nullen(5);
        manuell_sicher::ausfuehren(&a, &b, &mut c, 5, 2, &kerne);
        assert_eq!(c, einheit(5));
        assert_eq!(get_core_ids().unwrap(), vec![kerne[1]]);
    }
}

#[test]
fn jede_strategie_rechnet_das_produkt() {
    let a: Vec<Vec<Gleit>> = vec![vec![Gleit(1.0), Gleit(2.0)], vec![Gleit(3.0), Gleit(4.0)]];
    let b: Vec<Vec<Gleit>> = vec![vec![Gleit(5.0), Gleit(6.0)], vec![Gleit(7.0), Gleit(8.0)]];
    let erwartet: Vec<Vec<Gleit>> = vec![vec![Gleit(19.0), Gleit(22.0)], vec![Gleit(43.0), Gleit(50.0)]];
    for (name, ausfuehren) in strategien() {
        for threads in 1..=5usize {
            let mut c = nullen(2);
            ausfuehren(&a, &b, &mut c, 2, threads, &kerne_fuer(threads));
            assert_eq!(c, erwartet, "{} mit threads = {}", name, threads);
        }
    }
    let mut c = nullen(2);
    mein_rayon::ausfuehren(&a, &b, &mut c, 2);
    assert_eq!(c, erwartet);
}

#[test]
fn einheitsmatrix_mal_einheitsmatrix() {
    let a = einheit(2);
    let b = einheit(2);
    let kerne = kerne_fuer(5);
    let mut c = nullen(2);
    single::ausfuehren(&a, &b, &mut c, 2, &kerne[0]);
    assert_eq!(c, einheit(2));
    for (name, ausfuehren) in strategien() {
        for threads in 1..=5usize {
            let mut c = nullen(2);
            ausfuehren(&a, &b, &mut c, 2, threads, &kerne);
            assert_eq!(c, einheit(2), "{} mit threads = {}", name, threads);
        }
    }
    let mut c = nullen(2);
    mein_rayon::ausfuehren(&a, &b, &mut c, 2);
    assert_eq!(c, einheit(2));
}

#[test]
fn acht_einsen_ergeben_acht() {
    let n: usize = 8;
    let a: Vec<Vec<Gleit>> = vec![vec![Gleit(1.0); n]; n];
    let b: Vec<Vec<Gleit>> = vec![vec![Gleit(1.0); n]; n];
    let erwartet: Vec<Vec<Gleit>> = vec![vec![Gleit(8.0); n]; n];
    let kerne = kerne_fuer(3);
    let mut c = nullen(n);
    single::ausfuehren(&a, &b, &mut c, n, &kerne[0]);
    assert_eq!(c, erwartet);
    for (name, ausfuehren) in strategien() {
        for threads in 1..=3usize {
            let mut c = nullen(n);
            ausfuehren(&a, &b, &mut c, n, threads, &kerne);
            assert_eq!(c, erwartet, "{} mit threads = {}", name, threads);
        }
    }
    let mut c = nullen(n);
    mein_rayon::ausfuehren(&a, &b, &mut c, n);
    assert_eq!(c, erwartet);
}

#[test]
fn leere_matrix_bleibt_leer() {
    let a: Vec<Vec<Gleit>> = Vec::new();
    let b: Vec<Vec<Gleit>> = Vec::new();
    let kerne = kerne_fuer(4);
    let mut c: Vec<Vec<Gleit>> = Vec::new();
    single::ausfuehren(&a, &b, &mut c, 0, &kerne[0]);
    assert_eq!(c, Vec::<Vec<Gleit>>::new());
    for (name, ausfuehren) in strategien() {
        for threads in 1..=4usize {
            let mut c: Vec<Vec<Gleit>> = Vec::new();
            ausfuehren(&a, &b, &mut c, 0, threads, &kerne);
            assert_eq!(c, Vec::<Vec<Gleit>>::new(), "{} mit threads = {}", name, threads);
        }
    }
    let mut c: Vec<Vec<Gleit>> = Vec::new();
    mein_rayon::ausfuehren(&a, &b, &mut c, 0);
    assert_eq!(c, Vec::<Vec<Gleit>>::new());
}

#[test]
fn ergebnis_haengt_nicht_an_der_zahl_der_arbeiter() {
    for n in [2usize, 7, 16, 37] {
        let a = zufallsmatrix_2d(n, 3);
        let b = zufallsmatrix_2d(n, 4);
        let erwartet = von_hand(&a, &b, n);
        for (name, ausfuehren) in strategien() {
            for threads in 1..=12usize {
                let mut c = nullen(n);
                ausfuehren(&a, &b, &mut c, n, threads, &kerne_fuer(threads));
                assert_eq!(c, erwartet, "{} mit threads = {}, n = {}", name, threads, n);
            }
        }
    }
}

#[test]
fn wiederholung_ergibt_dasselbe() {
    let n: usize = 29;
    let a = zufallsmatrix_2d(n, 5);
    let b = zufallsmatrix_2d(n, 6);
    let kerne = kerne_fuer(3);
    for (name, ausfuehren) in strategien() {
        let mut erstes = nullen(n);
        ausfuehren(&a, &b, &mut erstes, n, 3, &kerne);
        for _ in 0..3 {
            let mut weiteres = nullen(n);
            ausfuehren(&a, &b, &mut weiteres, n, 3, &kerne);
            assert_eq!(erstes, weiteres, "{}", name);
        }
    }
    let mut erstes = nullen(n);
    mein_rayon::ausfuehren(&a, &b, &mut erstes, n);
    for _ in 0..3 {
        let mut weiteres = nullen(n);
        mein_rayon::ausfuehren(&a, &b, &mut weiteres, n);
        assert_eq!(erstes, weiteres);
    }
}

#[test]
fn was_vorher_im_ergebnis_stand_zaehlt_nicht() {
    let n: usize = 11;
    let a = zufallsmatrix_2d(n, 7);
    let b = zufallsmatrix_2d(n, 8);
    let erwartet = von_hand(&a, &b, n);
    let kerne = kerne_fuer(2);
    for (name, ausfuehren) in strategien() {
        let mut c = zufallsmatrix_2d(n, 9);
        ausfuehren(&a, &b, &mut c, n, 2, &kerne);
        assert_eq!(c, erwartet, "{}", name);
    }
    let mut c = zufallsmatrix_2d(n, 9);
    mein_rayon::ausfuehren(&a, &b, &mut c, n);
    assert_eq!(c, erwartet);
    let mut c = zufallsmatrix_2d(n, 9);
    single::ausfuehren(&a, &b, &mut c, n, &kerne[0]);
    assert_eq!(c, erwartet);
}

#[test]
fn sicher_ersetzt_zeilen_jeder_laenge() {
    let a: Vec<Vec<i64>> = vec![vec![1, 2], vec![3, 4]];
    let b: Vec<Vec<i64>> = vec![vec![5, 6], vec![7, 8]];
    let mut c: Vec<Vec<i64>> = vec![Vec::new(), vec![9, 9, 9]];
    manuell_sicher::ausfuehren(&a, &b, &mut c, 2, 2, &kerne_fuer(2));
    assert_eq!(c, vec![vec![19, 22], vec![43, 50]]);
}

#[test]
fn ganzzahlen_in_jeder_strategie() {
    let n: usize = 10;
    let a: Vec<Vec<i64>> = (0..n).map(|i| (0..n).map(|j| (i * n + j) as i64 - 40).collect()).collect();
    let b: Vec<Vec<i64>> = (0..n).map(|i| (0..n).map(|j| (i as i64) * 3 - (j as i64) * 7).collect()).collect();
    let mut erwartet: Vec<Vec<i64>> = vec![vec![0; n]; n];
    for i in 0..n {
        for j in 0..n {
            for k in 0..n {
                erwartet[i][j] += a[i][k] * b[k][j];
            }
        }
    }
    let kerne = kerne_fuer(3);
    let mut c: Vec<Vec<i64>> = nullmatrix(n);
    manuell_sicher::ausfuehren(&a, &b, &mut c, n, 3, &kerne);
    assert_eq!(c, erwartet);
    let mut c: Vec<Vec<i64>> = nullmatrix(n);
    manuell_unsicher::ausfuehren(&a, &b, &mut c, n, 3, &kerne);
    assert_eq!(c, erwartet);
    let mut c: Vec<Vec<i64>> = nullmatrix(n);
    crossbeam::ausfuehren(&a, &b, &mut c, n, 3, &kerne);
    assert_eq!(c, erwartet);
    let mut c: Vec<Vec<i64>> = nullmatrix(n);
    mein_rayon::ausfuehren(&a, &b, &mut c, n);
    assert_eq!(c, erwartet);
    let mut c: Vec<Vec<i64>> = nullmatrix(n);
    simd::ausfuehren(&a, &b, &mut c, n, 3, &kerne);
    assert_eq!(c, erwartet);
    let mut c: Vec<Vec<i64>> = nullmatrix(n);
    simd_tiling::ausfuehren(&a, &b, &mut c, n, 3, &kerne);
    assert_eq!(c, erwartet);
    let mut c: Vec<Vec<i64>> = nullmatrix(n);
    tiling::ausfuehren(&a, &b, &mut c, n, 3, &kerne);
    assert_eq!(c, erwartet);
    let mut c: Vec<Vec<i64>> = nullmatrix(n);
    unroll::ausfuehren(&a, &b, &mut c, n, 3, &kerne);
    assert_eq!(c, erwartet);
    let mut c: Vec<Vec<i64>> = nullmatrix(n);
    single::ausfuehren(&a, &b, &mut c, n, &kerne[0]);
    assert_eq!(c, erwartet);
}

#[test]
fn bearbeite_haengt_die_zeilen_des_abschnitts_an() {
    let n: usize = 6;
    let a = zufallsmatrix_2d(n, 10);
    let b = zufallsmatrix_2d(n, 11);
    let erwartet = von_hand(&a, &b, n);
    let mut berechnet: Vec<(usize, Vec<Gleit>)> = vec![(5, vec![Gleit(1.0)])];
    bearbeite(Kernart::Naiv, &a, &b, n, Abschnitt { anfang: 2, ende: 5 }, &mut berechnet);
    assert_eq!(
        berechnet,
        vec![
            (5, vec![Gleit(1.0)]),
            (2, erwartet[2].clone()),
            (3, erwartet[3].clone()),
            (4, erwartet[4].clone()),
        ]
    );
    bearbeite(Kernart::Gekachelt, &a, &b, n, Abschnitt { anfang: 3, ende: 3 }, &mut berechnet);
    assert_eq!(berechnet.len(), 4);
}

#[test]
fn arbeiter_nimmt_was_aussteht() {
    let n: usize = 10;
    let a = zufallsmatrix_2d(n, 12);
    let b = zufallsmatrix_2d(n, 13);
    let erwartet = von_hand(&a, &b, n);
    let kerne = kerne_fuer(1);
    let mut zaehler = Zaehler::neu(n);
    assert_eq!(zaehler.nimm(), Some(Abschnitt { anfang: 0, ende: 4 }));
    let berechnet = arbeite(Kernart::Vektor, &a, &b, n, &mut zaehler, kerne[0]);
    let nummern: Vec<usize> = berechnet.iter().map(|eintrag| eintrag.0).collect();
    assert_eq!(nummern, vec![4, 5, 6, 7, 8, 9]);
    for (i, zeile) in &berechnet {
        assert_eq!(zeile, &erwartet[*i]);
    }
    assert_eq!(zaehler.nimm(), None);
    let spaeter = arbeite(Kernart::Vektor, &a, &b, n, &mut zaehler, kerne[0]);
    assert_eq!(spaeter, Vec::new());
}

#[test]
fn einsetzen_setzt_jede_zeile_an_ihren_platz() {
    let mut c: Vec<Vec<i64>> = vec![vec![0, 0], vec![0, 0], vec![0, 0]];
    einsetzen(&mut c, vec![(2, vec![5, 6]), (0, vec![1, 2])]);
    assert_eq!(c, vec![vec![1, 2], vec![0, 0], vec![5, 6]]);
    einsetzen(&mut c, Vec::new());
    assert_eq!(c, vec![vec![1, 2], vec![0, 0], vec![5, 6]]);
    einsetzen(&mut c, vec![(1, vec![3, 4]), (1, vec![7, 8, 9])]);
    assert_eq!(c, vec![vec![1, 2], vec![7, 8, 9], vec![5, 6]]);
}

#[test]
fn alle_einsetzen_setzt_puffer_fuer_puffer_ein() {
    let mut c: Vec<Vec<i64>> = vec![vec![0], vec![0], vec![0]];
    alle_einsetzen(&mut c, vec![vec![(0, vec![1]), (1, vec![2])], Vec::new(), vec![(1, vec![3]), (2, vec![4])]]);
    assert_eq!(c, vec![vec![1], vec![3], vec![4]]);
    alle_einsetzen(&mut c, Vec::new());
    assert_eq!(c, vec![vec![1], vec![3], vec![4]]);
}

#[test]
fn verteilung_reihum_ergibt_dasselbe() {
    for n in [1usize, 2, 4, 5, 13, 30, 33] {
        let a = zufallsmatrix_2d(n, 14);
        let b = zufallsmatrix_2d(n, 15);
        let erwartet = von_hand(&a, &b, n);
        for threads in 1..=6usize {
            let mut sammeln: Vec<Vec<(usize, Vec<Gleit>)>> = (0..threads).map(|_| Vec::new()).collect();
            let mut zaehler = Zaehler::neu(n);
            let mut dran: usize = 0;
            while let Some(ab) = zaehler.nimm() {
                bearbeite(Kernart::Entrollt, &a, &b, n, ab, &mut sammeln[dran]);
                dran = (dran + 1) % threads;
            }
            let mut c = nullen(n);
            for h in sammeln.into_iter().rev() {
                einsetzen(&mut c, h);
            }
            assert_eq!(c, erwartet, "threads = {}, n = {}", threads, n);
        }
    }
}

#[test]
fn verteilung_ueber_einen_gemeinsamen_zaehler() {
    let n: usize = 50;
    let a = zufallsmatrix_2d(n, 16);
    let b = zufallsmatrix_2d(n, 17);
    let erwartet = von_hand(&a, &b, n);
    let zaehler = std::sync::atomic::AtomicUsize::new(0);
    let sammeln: Vec<Vec<(usize, Vec<Gleit>)>> = ::crossbeam::thread::scope(|s| {
        let handles: Vec<_> = (0..4)
            .map(|_| {
                s.spawn(|_| {
                    let mut berechnet: Vec<(usize, Vec<Gleit>)> = Vec::new();
                    loop {
                        let anfang = zaehler.fetch_add(ZEILEN, std::sync::atomic::Ordering::Relaxed);
                        match Abschnitt::ab(anfang, n) {
                            None => break,
                            Some(ab) => bearbeite(Kernart::Naiv, &a, &b, n, ab, &mut berechnet),
                        }
                    }
                    berechnet
                })
            })
            .collect();
        handles.into_iter().map(|h| h.join().unwrap()).collect()
    })
    .unwrap();
    let zeilen: usize = sammeln.iter().map(|h| h.len()).sum();
    assert_eq!(zeilen, n);
    let mut c = nullen(n);
    alle_einsetzen(&mut c, sammeln);
    assert_eq!(c, erwartet);
}

#[test]
fn verteilung_ueber_eine_gemeinsame_warteschlange() {
    for n in [0usize, 3, 50] {
        let a = zufallsmatrix_2d(n, 25);
        let b = zufallsmatrix_2d(n, 26);
        let erwartet = von_hand(&a, &b, n);
        let empfaenger = Warteschlange::gefuellt(n).empfaenger();
        let sammeln: Vec<Vec<(usize, Vec<Gleit>)>> = ::crossbeam::thread::scope(|s| {
            let handles: Vec<_> = (0..5)
                .map(|_| {
                    let kopie = empfaenger.clone();
                    let (a, b) = (&a, &b);
                    s.spawn(move |_| {
                        let mut berechnet: Vec<(usize, Vec<Gleit>)> = Vec::new();
                        for anfang in kopie {
                            if let Some(ab) = Abschnitt::ab(anfang, n) {
                                bearbeite(Kernart::Naiv, a, b, n, ab, &mut berechnet);
                            }
                        }
                        berechnet
                    })
                })
                .collect();
            handles.into_iter().map(|h| h.join().unwrap()).collect()
        })
        .unwrap();
        let mut c: Vec<Vec<Gleit>> = vec![Vec::new(); n];
        let mut zeilen: usize = 0;
        for h in sammeln {
            zeilen += h.len();
            einsetzen(&mut c, h);
        }
        assert_eq!(zeilen, n);
        assert_eq!(c, erwartet);
    }
}

#[test]
fn direkt_schreibt_an_ort_und_stelle() {
    let n: usize = 6;
    let a = zufallsmatrix_2d(n, 18);
    let b = zufallsmatrix_2d(n, 19);
    let erwartet = von_hand(&a, &b, n);
    let vorher = zufallsmatrix_2d(n, 20);
    let mut c = vorher.clone();
    bearbeite_direkt(&a, &b, &mut c, n, Abschnitt { anfang: 1, ende: 3 });
    for i in 0..n {
        if 1 <= i && i < 3 {
            assert_eq!(c[i], erwartet[i]);
        } else {
            assert_eq!(c[i], vorher[i]);
        }
    }
    let kerne = kerne_fuer(1);
    let mut schlange = Warteschlange::gefuellt(n);
    assert_eq!(schlange.nimm(), Some(Abschnitt { anfang: 0, ende: 4 }));
    let mut c = vorher.clone();
    arbeite_direkt(&a, &b, &mut c, n, &mut schlange, kerne[0]);
    for i in 0..n {
        if i >= 4 {
            assert_eq!(c[i], erwartet[i]);
        } else {
            assert_eq!(c[i], vorher[i]);
        }
    }
}

#[test]
fn ablauf_mit_jedem_verteiler_und_jedem_kern() {
    let n: usize = 19;
    let a = zufallsmatrix_2d(n, 21);
    let b = zufallsmatrix_2d(n, 22);
    let erwartet = von_hand(&a, &b, n);
    let kerne = kerne_fuer(3);
    let arten = [Kernart::Naiv, Kernart::Entrollt, Kernart::Gekachelt, Kernart::Vektor, Kernart::GekacheltVektor];
    for art in arten {
        let mut c = nullen(n);
        nacheinander(art, &a, &b, &mut c, n, 3, &kerne, Zaehler::neu(n));
        assert_eq!(c, erwartet);
        let mut c = nullen(n);
        nacheinander(art, &a, &b, &mut c, n, 3, &kerne, Warteschlange::gefuellt(n));
        assert_eq!(c, erwartet);
    }
    let mut c = nullen(n);
    direkt_nacheinander(&a, &b, &mut c, n, 3, &kerne, Warteschlange::gefuellt(n));
    assert_eq!(c, erwartet);
    let mut c = nullen(n);
    direkt_nacheinander(&a, &b, &mut c, n, 3, &kerne, Zaehler::neu(n));
    assert_eq!(c, erwartet);
}

#[test]
fn rayon_in_pools_jeder_groesse() {
    let n: usize = 45;
    let a = zufallsmatrix_2d(n, 23);
    let b = zufallsmatrix_2d(n, 24);
    let erwartet = von_hand(&a, &b, n);
    for threads in 1..=4usize {
        let pool = ThreadPoolBuilder::new().num_threads(threads).build().unwrap();
        let mut c = nullen(n);
        pool.install(|| {
            mein_rayon::ausfuehren(&a, &b, &mut c, n);
        });
        assert_eq!(c, erwartet);
    }
}
