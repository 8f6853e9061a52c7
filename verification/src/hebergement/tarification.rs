//! Le barème du passage — **une fonction pure, en arithmétique entière** — et la décision de
//! tarification d'une occupation.
//!
//! L'ordre des étapes du barème :
//!
//! 1. la durée réelle, en minutes ;
//! 2. si la durée atteint le seuil de bascule → **nuitée**, fin du calcul ;
//! 3. le premier palier dont la durée couvre la durée réelle ;
//! 4. sinon le dernier palier, plus une heure supplémentaire par heure **entamée** au-delà.
//!
//! La bascule précède la recherche de palier : l'inverser ferait payer un empilement d'heures à
//! qui a dormi une nuit.

use vstd::prelude::*;
use crate::hebergement::occupation::ErreurAttribution;
use crate::hebergement::referentiel::{ErreurReferentiel, FamilleFormule};
use crate::temps::Horodatage;

verus! {

/// Un palier, réduit à ce que le calcul en consomme.
#[derive(Debug, Clone, Copy, PartialEq, Eq, Structural)]
pub struct Palier {
    pub duree_minutes: i32,
    /// Entier d'unité mineure.
    pub prix_mineur: i64,
}

/// Ce que le barème décide — sans devise ni horodatage, que le service ajoute.
#[derive(Debug, Clone, Copy, PartialEq, Eq, Structural)]
pub struct Calcul {
    pub formule_appliquee: FamilleFormule,
    /// `None` quand la durée a fait basculer en nuitée : il n'y a pas de palier.
    pub palier_retenu_minutes: Option<i32>,
    pub heures_supplementaires: i32,
    pub montant_du_mineur: i64,
}

/// Le barème est-il exploitable ?
#[derive(Debug, Clone, Copy, PartialEq, Eq, Structural)]
pub enum ErreurBareme {
    /// Un passage sans palier ne sait rien facturer.
    BaremeAbsent,
}

impl ErreurBareme {
    /// Le code stable du refus.
    pub fn code(&self) -> (r: &'static str)
        ensures
            r@ == "bareme_absent"@,
    {
        "bareme_absent"
    }
}

/// La durée déclenche-t-elle la bascule en nuitée ? Il faut un seuil **et** un prix de nuitée.
pub open spec fn bascule(duree: int, seuil: Option<i32>, prix_nuitee: Option<i64>) -> bool {
    seuil is Some && prix_nuitee is Some && duree >= seuil->0
}

/// `i` désigne le palier retenu pour `duree` : celui de plus courte durée parmi ceux qui la
/// couvrent, le premier donné en cas d'égalité — le premier d'un tri stable par durée.
pub open spec fn premier_couvrant(p: Seq<Palier>, duree: int, i: int) -> bool {
    &&& 0 <= i < p.len()
    &&& p[i].duree_minutes >= duree
    &&& forall|j: int|
        0 <= j < p.len() && #[trigger] p[j].duree_minutes >= duree ==> p[j].duree_minutes
            > p[i].duree_minutes || (p[j].duree_minutes == p[i].duree_minutes && j >= i)
}

/// `i` désigne le dernier palier : celui de plus longue durée, le dernier donné en cas
/// d'égalité — le dernier d'un tri stable par durée.
pub open spec fn dernier_palier(p: Seq<Palier>, i: int) -> bool {
    &&& 0 <= i < p.len()
    &&& forall|j: int|
        0 <= j < p.len() ==> #[trigger] p[j].duree_minutes < p[i].duree_minutes || (
        p[j].duree_minutes == p[i].duree_minutes && j <= i)
}

/// Toute heure entamée est due : le nombre d'heures supplémentaires pour `reste` minutes.
pub open spec fn heures_entamees(reste: int) -> int {
    (reste + 59) / 60
}

/// Le nombre d'heures, ramené au plus grand `i32` s'il le dépasse.
pub open spec fn heures_saturees(h: int) -> i32 {
    if h <= i32::MAX {
        h as i32
    } else {
        i32::MAX
    }
}

/// Ce que le barème rend pour une durée, un jeu de paliers et les paramètres de l'établissement.
pub open spec fn calcul_attendu(
    duree: int,
    p: Seq<Palier>,
    prix_heure: Option<i64>,
    seuil: Option<i32>,
    prix_nuitee: Option<i64>,
) -> Result<Calcul, ErreurBareme> {
    if p.len() == 0 {
        Err(ErreurBareme::BaremeAbsent)
    } else if bascule(duree, seuil, prix_nuitee) {
        Ok(
            Calcul {
                formule_appliquee: FamilleFormule::Nuitee,
                palier_retenu_minutes: None,
                heures_supplementaires: 0,
                montant_du_mineur: prix_nuitee->0,
            },
        )
    } else if exists|i: int| premier_couvrant(p, duree, i) {
        let i = choose|i: int| premier_couvrant(p, duree, i);
        Ok(
            Calcul {
                formule_appliquee: FamilleFormule::Passage,
                palier_retenu_minutes: Some(p[i].duree_minutes),
                heures_supplementaires: 0,
                montant_du_mineur: p[i].prix_mineur,
            },
        )
    } else {
        let k = choose|k: int| dernier_palier(p, k);
        match prix_heure {
            None => Ok(
                Calcul {
                    formule_appliquee: FamilleFormule::Passage,
                    palier_retenu_minutes: Some(p[k].duree_minutes),
                    heures_supplementaires: 0,
                    montant_du_mineur: p[k].prix_mineur,
                },
            ),
            Some(ph) => {
                let h = heures_entamees(duree - p[k].duree_minutes);
                Ok(
                    Calcul {
                        formule_appliquee: FamilleFormule::Passage,
                        palier_retenu_minutes: Some(p[k].duree_minutes),
                        heures_supplementaires: heures_saturees(h),
                        montant_du_mineur: (p[k].prix_mineur + h * ph) as i64,
                    },
                )
            },
        }
    }
}

/// Le calcul tient dans des entiers de 64 bits : c'est le seul cas où l'arithmétique du barème
/// pourrait déborder, celui des heures supplémentaires au-delà du dernier palier.
pub open spec fn calcul_representable(
    duree: int,
    p: Seq<Palier>,
    prix_heure: Option<i64>,
    seuil: Option<i32>,
    prix_nuitee: Option<i64>,
) -> bool {
    (p.len() > 0 && !bascule(duree, seuil, prix_nuitee) && !(exists|i: int|
        premier_couvrant(p, duree, i)) && prix_heure is Some) ==> {
        let k = choose|k: int| dernier_palier(p, k);
        let h = heures_entamees(duree - p[k].duree_minutes);
        &&& duree - p[k].duree_minutes + 59 <= i64::MAX
        &&& i64::MIN <= h * prix_heure->0 <= i64::MAX
        &&& i64::MIN <= p[k].prix_mineur + h * prix_heure->0 <= i64::MAX
    }
}

proof fn lemme_premier_couvrant_unique(p: Seq<Palier>, duree: int, i: int, j: int)
    requires
        premier_couvrant(p, duree, i),
        premier_couvrant(p, duree, j),
    ensures
        i == j,
{
    assert(p[j].duree_minutes >= duree);
    assert(p[i].duree_minutes >= duree);
}

proof fn lemme_dernier_unique(p: Seq<Palier>, i: int, j: int)
    requires
        dernier_palier(p, i),
        dernier_palier(p, j),
    ensures
        i == j,
{
    assert(p[j].duree_minutes < p[i].duree_minutes || (p[j].duree_minutes
        == p[i].duree_minutes && j <= i));
    assert(p[i].duree_minutes < p[j].duree_minutes || (p[i].duree_minutes
        == p[j].duree_minutes && i <= j));
}

/// Calcule le montant dû pour une durée réelle.
///
/// - `duree_minutes` — la durée **constatée**, depuis l'horodatage d'autorité serveur ;
/// - `paliers` — dans n'importe quel ordre : le palier retenu est celui qu'un tri stable par
///   durée placerait en premier parmi ceux qui couvrent la durée ;
/// - `prix_heure_supplementaire_mineur` — `None` : pas d'heure supplémentaire, le dernier palier
///   plafonne ;
/// - `seuil_bascule_minutes` — paramètre d'établissement ; `None` : aucune bascule ;
/// - `prix_nuitee_mineur` — le prix de la nuitée de la même catégorie.
pub fn calculer(
    duree_minutes: i64,
    paliers: &[Palier],
    prix_heure_supplementaire_mineur: Option<i64>,
    seuil_bascule_minutes: Option<i32>,
    prix_nuitee_mineur: Option<i64>,
) -> (r: Result<Calcul, ErreurBareme>)
    requires
        calcul_representable(
            duree_minutes as int,
            paliers@,
            prix_heure_supplementaire_mineur,
            seuil_bascule_minutes,
            prix_nuitee_mineur,
        ),
    ensures
        r == calcul_attendu(
            duree_minutes as int,
            paliers@,
            prix_heure_supplementaire_mineur,
            seuil_bascule_minutes,
            prix_nuitee_mineur,
        ),
{
    let ghost p = paliers@;
    let ghost d = duree_minutes as int;
    let n = paliers.len();
    if n == 0 {
        return Err(ErreurBareme::BaremeAbsent);
    }
    // ── La bascule, avant tout palier ──
    if let (Some(seuil), Some(prix_nuitee)) = (seuil_bascule_minutes, prix_nuitee_mineur) {
        if duree_minutes >= seuil as i64 {
            return Ok(
                Calcul {
                    formule_appliquee: FamilleFormule::Nuitee,
                    palier_retenu_minutes: None,
                    heures_supplementaires: 0,
                    montant_du_mineur: prix_nuitee,
                },
            );
        }
    }
    assert(!bascule(d, seuil_bascule_minutes, prix_nuitee_mineur));
    // ── Un seul parcours : le palier couvrant retenu, et le dernier palier ──
    let mut couvrant: Option<usize> = None;
    let mut dernier: usize = 0;
    let mut i: usize = 0;
    while i < n
        invariant
            n == p.len(),
            p == paliers@,
            d == duree_minutes as int,
            n > 0,
            0 <= i <= n,
            dernier < n,
            i > 0 ==> dernier < i,
            i > 0 ==> forall|j: int|
                0 <= j < i ==> #[trigger] p[j].duree_minutes < p[dernier as int].duree_minutes
                    || (p[j].duree_minutes == p[dernier as int].duree_minutes && j
                    <= dernier),
            match couvrant {
                None => forall|j: int| 0 <= j < i ==> #[trigger] p[j].duree_minutes < d,
                Some(c) => {
                    &&& c < i
                    &&& p[c as int].duree_minutes >= d
                    &&& forall|j: int|
                        0 <= j < i && #[trigger] p[j].duree_minutes >= d ==> p[j].duree_minutes
                            > p[c as int].duree_minutes || (p[j].duree_minutes
                            == p[c as int].duree_minutes && j >= c)
                },
            },
        decreases n - i,
    {
        let courant = paliers[i];
        if courant.duree_minutes as i64 >= duree_minutes {
            match couvrant {
                None => {
                    couvrant = Some(i);
                },
                Some(c) => {
                    if courant.duree_minutes < paliers[c].duree_minutes {
                        couvrant = Some(i);
                    }
                },
            }
        }
        if i == 0 || courant.duree_minutes >= paliers[dernier].duree_minutes {
            dernier = i;
        }
        i = i + 1;
    }
    assert(dernier_palier(p, dernier as int));
    proof {
        let k = choose|k: int| dernier_palier(p, k);
        lemme_dernier_unique(p, k, dernier as int);
    }
    match couvrant {
        Some(c) => {
            assert(premier_couvrant(p, d, c as int));
            proof {
                let k = choose|k: int| premier_couvrant(p, d, k);
                lemme_premier_couvrant_unique(p, d, k, c as int);
            }
            let palier = paliers[c];
            Ok(
                Calcul {
                    formule_appliquee: FamilleFormule::Passage,
                    palier_retenu_minutes: Some(palier.duree_minutes),
                    heures_supplementaires: 0,
                    montant_du_mineur: palier.prix_mineur,
                },
            )
        },
        None => {
            assert(!(exists|k: int| premier_couvrant(p, d, k)));
            let palier = paliers[dernier];
            match prix_heure_supplementaire_mineur {
                None => Ok(
                    Calcul {
                        formule_appliquee: FamilleFormule::Passage,
                        palier_retenu_minutes: Some(palier.duree_minutes),
                        heures_supplementaires: 0,
                        montant_du_mineur: palier.prix_mineur,
                    },
                ),
                Some(prix_heure) => {
                    // Toute heure entamée est due : le plafond entier, sans flottant.
                    let reste = duree_minutes - palier.duree_minutes as i64;
                    let heures = (reste + 59) / 60;
                    let heures_i32: i32 = if heures <= i32::MAX as i64 {
                        heures as i32
                    } else {
                        i32::MAX
                    };
                    let supplement = heures * prix_heure;
                    Ok(
                        Calcul {
                            formule_appliquee: FamilleFormule::Passage,
                            palier_retenu_minutes: Some(palier.duree_minutes),
                            heures_supplementaires: heures_i32,
                            montant_du_mineur: palier.prix_mineur + supplement,
                        },
                    )
                },
            }
        },
    }
}

/// Le calcul du barème tient-il dans des entiers de 64 bits ? C'est ce qu'un appelant teste avant
/// [`calculer`] : au-delà, l'addition des heures supplémentaires déborderait.
pub fn calcul_tient(
    duree_minutes: i64,
    paliers: &[Palier],
    prix_heure_supplementaire_mineur: Option<i64>,
    seuil_bascule_minutes: Option<i32>,
    prix_nuitee_mineur: Option<i64>,
) -> (r: bool)
    ensures
        r == calcul_representable(
            duree_minutes as int,
            paliers@,
            prix_heure_supplementaire_mineur,
            seuil_bascule_minutes,
            prix_nuitee_mineur,
        ),
{
    let ghost p = paliers@;
    let ghost d = duree_minutes as int;
    let n = paliers.len();
    if n == 0 {
        return true;
    }
    if let (Some(seuil), Some(_)) = (seuil_bascule_minutes, prix_nuitee_mineur) {
        if duree_minutes >= seuil as i64 {
            return true;
        }
    }
    let prix_heure = match prix_heure_supplementaire_mineur {
        None => {
            return true;
        },
        Some(x) => x,
    };
    let mut couvert = false;
    let mut dernier: usize = 0;
    let mut i: usize = 0;
    while i < n
        invariant
            n == p.len(),
            p == paliers@,
            d == duree_minutes as int,
            n > 0,
            0 <= i <= n,
            dernier < n,
            i > 0 ==> dernier < i,
            i > 0 ==> forall|j: int|
                0 <= j < i ==> #[trigger] p[j].duree_minutes < p[dernier as int].duree_minutes
                    || (p[j].duree_minutes == p[dernier as int].duree_minutes && j
                    <= dernier),
            couvert <==> exists|j: int| 0 <= j < i && #[trigger] p[j].duree_minutes >= d,
        decreases n - i,
    {
        let courant = paliers[i];
        if courant.duree_minutes as i64 >= duree_minutes {
            couvert = true;
        }
        if i == 0 || courant.duree_minutes >= paliers[dernier].duree_minutes {
            dernier = i;
        }
        i = i + 1;
    }
    if couvert {
        proof {
            let b = choose|j: int| 0 <= j < n && #[trigger] p[j].duree_minutes >= d;
            let _ = premier_de(p, d, b);
        }
        return true;
    }
    assert(!(exists|k: int| premier_couvrant(p, d, k)));
    assert(dernier_palier(p, dernier as int));
    proof {
        let k = choose|k: int| dernier_palier(p, k);
        lemme_dernier_unique(p, k, dernier as int);
    }
    let palier = paliers[dernier];
    let reste: i128 = duree_minutes as i128 - palier.duree_minutes as i128;
    if reste + 59 > i64::MAX as i128 {
        return false;
    }
    let heures: i128 = (reste + 59) / 60;
    assert(0 <= heures <= 200_000_000_000_000_000);
    assert(-200_000_000_000_000_000 * 9_223_372_036_854_775_808 <= heures * (prix_heure as i128)
        <= 200_000_000_000_000_000 * 9_223_372_036_854_775_808) by (nonlinear_arith)
        requires
            0 <= heures <= 200_000_000_000_000_000,
            -9_223_372_036_854_775_808 <= prix_heure <= 9_223_372_036_854_775_807,
    ;
    let supplement: i128 = heures * (prix_heure as i128);
    if supplement < i64::MIN as i128 || supplement > i64::MAX as i128 {
        return false;
    }
    let total: i128 = palier.prix_mineur as i128 + supplement;
    i64::MIN as i128 <= total && total <= i64::MAX as i128
}


/// Deux barèmes faits des mêmes paliers donnent le même calcul, quel que soit l'ordre dans
/// lequel les paliers sont fournis (et même répétés), dès lors que deux paliers distincts n'ont
/// jamais la même durée — ce que la clé `(formule, durée)` garantit en base. Le calcul tient dans
/// 64 bits pour l'un des ordres si et seulement s'il tient pour l'autre : [`calculer`] s'appelle
/// donc indifféremment sur l'un ou l'autre, et rend le même résultat.
pub proof fn loi_ordre_des_paliers_indifferent(
    duree: int,
    p: Seq<Palier>,
    q: Seq<Palier>,
    prix_heure: Option<i64>,
    seuil: Option<i32>,
    prix_nuitee: Option<i64>,
)
    requires
        p.to_set() == q.to_set(),
        forall|i: int, j: int|
            0 <= i < p.len() && 0 <= j < p.len() && #[trigger] p[i].duree_minutes
                == #[trigger] p[j].duree_minutes ==> i == j,
    ensures
        calcul_attendu(duree, p, prix_heure, seuil, prix_nuitee) == calcul_attendu(
            duree,
            q,
            prix_heure,
            seuil,
            prix_nuitee,
        ),
        calcul_representable(duree, p, prix_heure, seuil, prix_nuitee) == calcul_representable(
            duree,
            q,
            prix_heure,
            seuil,
            prix_nuitee,
        ),
{
    assert forall|x: Palier| p.contains(x) <==> q.contains(x) by {
        assert(p.to_set().contains(x) == p.contains(x));
        assert(q.to_set().contains(x) == q.contains(x));
        assert(p.to_set().contains(x) <==> q.to_set().contains(x));
    }
    if p.len() == 0 {
        if q.len() > 0 {
            assert(q.contains(q[0]));
        }
        return;
    }
    assert(p.contains(p[0]));
    assert(q.len() > 0);
    if bascule(duree, seuil, prix_nuitee) {
        return;
    }
    // Le palier couvrant retenu est le même de part et d'autre.
    if exists|i: int| premier_couvrant(p, duree, i) {
        let i = choose|i: int| premier_couvrant(p, duree, i);
        assert(p.contains(p[i]));
        let b = choose|b: int| 0 <= b < q.len() && q[b] == p[i];
        // q possède donc un palier couvrant ; on retient le meilleur.
        let ib = premier_de(q, duree, b);
        assert(premier_couvrant(q, duree, ib));
        let ib2 = choose|k: int| premier_couvrant(q, duree, k);
        lemme_premier_couvrant_unique(q, duree, ib, ib2);
        assert(q.contains(q[ib]));
        let a = choose|a: int| 0 <= a < p.len() && p[a] == q[ib];
        assert(p[a].duree_minutes >= duree);
        assert(q[b].duree_minutes >= duree);
        assert(q[ib] == p[i]) by {
            assert(p[a].duree_minutes >= p[i].duree_minutes);
            assert(q[b].duree_minutes >= q[ib].duree_minutes);
        }
    } else {
        assert(!(exists|k: int| premier_couvrant(q, duree, k))) by {
            if exists|k: int| premier_couvrant(q, duree, k) {
                let k = choose|k: int| premier_couvrant(q, duree, k);
                assert(q.contains(q[k]));
                let a = choose|a: int| 0 <= a < p.len() && p[a] == q[k];
                let ia = premier_de(p, duree, a);
                assert(premier_couvrant(p, duree, ia));
            }
        }
        let k = dernier_de(p, p.len() as int);
        let kq = dernier_de(q, q.len() as int);
        assert(dernier_palier(p, k));
        assert(dernier_palier(q, kq));
        let k2 = choose|k: int| dernier_palier(p, k);
        let kq2 = choose|k: int| dernier_palier(q, k);
        lemme_dernier_unique(p, k, k2);
        lemme_dernier_unique(q, kq, kq2);
        assert(q.contains(q[kq]));
        assert(p.contains(p[k]));
        let a = choose|a: int| 0 <= a < p.len() && p[a] == q[kq];
        let b = choose|b: int| 0 <= b < q.len() && q[b] == p[k];
        assert(q[kq] == p[k]) by {
            assert(p[a].duree_minutes <= p[k].duree_minutes);
            assert(q[b].duree_minutes <= q[kq].duree_minutes);
        }
    }
}

/// Un palier couvrant retenu existe dès que le palier `b` couvre la durée.
proof fn premier_de(p: Seq<Palier>, duree: int, b: int) -> (i: int)
    requires
        0 <= b < p.len(),
        p[b].duree_minutes >= duree,
    ensures
        premier_couvrant(p, duree, i),
    decreases p.len(),
{
    if p.len() == 1 {
        0
    } else {
        let q = p.drop_last();
        let n = p.len() - 1;
        if b == n {
            let candidat = if exists|c: int| 0 <= c < n && q[c].duree_minutes >= duree {
                let c = choose|c: int| 0 <= c < n && q[c].duree_minutes >= duree;
                Some(premier_de(q, duree, c))
            } else {
                None
            };
            match candidat {
                None => {
                    assert forall|j: int| 0 <= j < p.len() && #[trigger] p[j].duree_minutes >= duree
                        implies p[j].duree_minutes > p[n].duree_minutes || (p[j].duree_minutes
                        == p[n].duree_minutes && j >= n) by {
                        if j < n {
                            assert(q[j].duree_minutes >= duree);
                        }
                    }
                    n
                },
                Some(c) => {
                    assert(q[c] == p[c]);
                    if p[n].duree_minutes < p[c].duree_minutes {
                        assert forall|j: int|
                            0 <= j < p.len() && #[trigger] p[j].duree_minutes >= duree implies
                            p[j].duree_minutes > p[n].duree_minutes || (p[j].duree_minutes
                            == p[n].duree_minutes && j >= n) by {
                            if j < n {
                                assert(q[j].duree_minutes >= duree);
                            }
                        }
                        n
                    } else {
                        assert forall|j: int|
                            0 <= j < p.len() && #[trigger] p[j].duree_minutes >= duree implies
                            p[j].duree_minutes > p[c].duree_minutes || (p[j].duree_minutes
                            == p[c].duree_minutes && j >= c) by {
                            if j < n {
                                assert(q[j].duree_minutes >= duree);
                            }
                        }
                        c
                    }
                },
            }
        } else {
            assert(q[b] == p[b]);
            let c = premier_de(q, duree, b);
            assert(q[c] == p[c]);
            if p[n].duree_minutes >= duree && p[n].duree_minutes < p[c].duree_minutes {
                assert forall|j: int| 0 <= j < p.len() && #[trigger] p[j].duree_minutes >= duree
                    implies p[j].duree_minutes > p[n].duree_minutes || (p[j].duree_minutes
                    == p[n].duree_minutes && j >= n) by {
                    if j < n {
                        assert(q[j].duree_minutes >= duree);
                    }
                }
                n
            } else {
                assert forall|j: int| 0 <= j < p.len() && #[trigger] p[j].duree_minutes >= duree
                    implies p[j].duree_minutes > p[c].duree_minutes || (p[j].duree_minutes
                    == p[c].duree_minutes && j >= c) by {
                    if j < n {
                        assert(q[j].duree_minutes >= duree);
                    }
                }
                c
            }
        }
    }
}

/// Le dernier palier des `n` premiers.
proof fn dernier_de(p: Seq<Palier>, n: int) -> (k: int)
    requires
        0 < n <= p.len(),
    ensures
        0 <= k < n,
        forall|j: int|
            0 <= j < n ==> #[trigger] p[j].duree_minutes < p[k].duree_minutes || (
            p[j].duree_minutes == p[k].duree_minutes && j <= k),
    decreases n,
{
    if n == 1 {
        0
    } else {
        let k = dernier_de(p, n - 1);
        if p[n - 1].duree_minutes >= p[k].duree_minutes {
            n - 1
        } else {
            k
        }
    }
}

/// `h` heures couvrent `reste` minutes, et `h − 1` ne les couvriraient pas.
pub open spec fn couvre_en_heures(h: int, reste: int) -> bool {
    h * 60 >= reste && (h - 1) * 60 < reste
}

/// Ce que le barème facture, en termes des paliers eux-mêmes. Sans palier, il refuse. Sans
/// bascule, une durée couverte par un palier est facturée au prix du **plus court** palier qui la
/// couvre, sans heure supplémentaire ; une durée qu'aucun palier ne couvre est facturée au **plus
/// long** palier, plus, s'il y a un prix d'heure, une heure par heure **entamée** au-delà.
pub proof fn loi_bareme(
    duree: int,
    p: Seq<Palier>,
    prix_heure: Option<i64>,
    seuil: Option<i32>,
    prix_nuitee: Option<i64>,
)
    ensures
        p.len() == 0 ==> calcul_attendu(duree, p, prix_heure, seuil, prix_nuitee) == Err::<
            Calcul,
            ErreurBareme,
        >(ErreurBareme::BaremeAbsent),
        p.len() > 0 && !bascule(duree, seuil, prix_nuitee) && (exists|j: int|
            0 <= j < p.len() && #[trigger] p[j].duree_minutes >= duree) ==> (calcul_attendu(
            duree,
            p,
            prix_heure,
            seuil,
            prix_nuitee,
        ) matches Ok(c) && c.formule_appliquee == FamilleFormule::Passage
            && c.heures_supplementaires == 0 && exists|i: int|
            {
                &&& 0 <= i < p.len()
                &&& p[i].duree_minutes >= duree
                &&& c.palier_retenu_minutes == Some(p[i].duree_minutes)
                &&& c.montant_du_mineur == p[i].prix_mineur
                &&& forall|j: int|
                    0 <= j < p.len() && #[trigger] p[j].duree_minutes >= duree ==> p[j].duree_minutes
                        >= p[i].duree_minutes
            }),
        p.len() > 0 && !bascule(duree, seuil, prix_nuitee) && (forall|j: int|
            0 <= j < p.len() ==> #[trigger] p[j].duree_minutes < duree) ==> (calcul_attendu(
            duree,
            p,
            prix_heure,
            seuil,
            prix_nuitee,
        ) matches Ok(c) && c.formule_appliquee == FamilleFormule::Passage && exists|k: int|
            {
                &&& 0 <= k < p.len()
                &&& forall|j: int| 0 <= j < p.len() ==> #[trigger] p[j].duree_minutes <= p[k].duree_minutes
                &&& c.palier_retenu_minutes == Some(p[k].duree_minutes)
                &&& prix_heure is None ==> c.montant_du_mineur == p[k].prix_mineur
                    && c.heures_supplementaires == 0
                &&& prix_heure is Some ==> exists|h: int|
                    {
                        &&& #[trigger] couvre_en_heures(h, duree - p[k].duree_minutes)
                        &&& h <= i32::MAX ==> c.heures_supplementaires == h
                        &&& i64::MIN <= p[k].prix_mineur + h * prix_heure->0 <= i64::MAX
                            ==> c.montant_du_mineur == p[k].prix_mineur + h * prix_heure->0
                    }
            }),
{
    if p.len() > 0 && !bascule(duree, seuil, prix_nuitee) {
        if exists|j: int| 0 <= j < p.len() && #[trigger] p[j].duree_minutes >= duree {
            let j = choose|j: int| 0 <= j < p.len() && #[trigger] p[j].duree_minutes >= duree;
            let i = premier_de(p, duree, j);
            let i2 = choose|k: int| premier_couvrant(p, duree, k);
            lemme_premier_couvrant_unique(p, duree, i, i2);
        }
        if forall|j: int| 0 <= j < p.len() ==> #[trigger] p[j].duree_minutes < duree {
            assert(!exists|i: int| premier_couvrant(p, duree, i)) by {
                if exists|i: int| premier_couvrant(p, duree, i) {
                    let i = choose|i: int| premier_couvrant(p, duree, i);
                    assert(p[i].duree_minutes < duree);
                }
            }
            let k = dernier_de(p, p.len() as int);
            let k2 = choose|k: int| dernier_palier(p, k);
            lemme_dernier_unique(p, k, k2);
            let r = duree - p[k].duree_minutes;
            let h = heures_entamees(r);
            assert(couvre_en_heures(h, r)) by {
                loi_toute_heure_entamee_est_due(r);
            }
        }
    }
}

/// Une durée égale à celle d'un palier est facturée à ce palier, sans heure supplémentaire :
/// la borne du palier est incluse.
pub proof fn loi_borne_du_palier_incluse(
    duree: int,
    p: Seq<Palier>,
    j: int,
    prix_heure: Option<i64>,
    seuil: Option<i32>,
    prix_nuitee: Option<i64>,
)
    requires
        0 <= j < p.len(),
        p[j].duree_minutes == duree,
        !bascule(duree, seuil, prix_nuitee),
    ensures
        calcul_attendu(duree, p, prix_heure, seuil, prix_nuitee) matches Ok(c) && c.formule_appliquee
            == FamilleFormule::Passage && c.palier_retenu_minutes == Some(duree as i32)
            && c.heures_supplementaires == 0,
{
    let i = premier_de(p, duree, j);
    let i2 = choose|k: int| premier_couvrant(p, duree, k);
    lemme_premier_couvrant_unique(p, duree, i, i2);
    assert(p[i].duree_minutes <= p[j].duree_minutes);
}

/// Au-delà du dernier palier, **toute heure entamée est due** : les heures facturées couvrent le
/// dépassement, et une heure de moins ne le couvrirait pas.
pub proof fn loi_toute_heure_entamee_est_due(reste: int)
    requires
        reste > 0,
    ensures
        heures_entamees(reste) * 60 >= reste,
        (heures_entamees(reste) - 1) * 60 < reste,
        heures_entamees(reste) >= 1,
{
}

/// Une bascule n'est pas un palier majoré : le calcul n'a pas de palier exactement quand il
/// applique la nuitée.
pub proof fn loi_bascule_sans_palier(
    duree: int,
    p: Seq<Palier>,
    prix_heure: Option<i64>,
    seuil: Option<i32>,
    prix_nuitee: Option<i64>,
)
    ensures
        calcul_attendu(duree, p, prix_heure, seuil, prix_nuitee) matches Ok(c) ==> (
        c.palier_retenu_minutes is None <==> c.formule_appliquee == FamilleFormule::Nuitee),
        p.len() > 0 && bascule(duree, seuil, prix_nuitee) ==> calcul_attendu(
            duree,
            p,
            prix_heure,
            seuil,
            prix_nuitee,
        ) == Ok::<Calcul, ErreurBareme>(
            Calcul {
                formule_appliquee: FamilleFormule::Nuitee,
                palier_retenu_minutes: None,
                heures_supplementaires: 0,
                montant_du_mineur: prix_nuitee->0,
            },
        ),
{
}


// =================================================================================================
//  La décision de tarification d'une occupation
// =================================================================================================

/// La rebascule d'un passage : le palier vendu, et ce que la durée réelle fait payer.
#[derive(Debug, Clone, Copy, PartialEq, Eq, Structural)]
pub struct Rebascule {
    pub palier_vendu_minutes: i32,
    /// Entier d'unité mineure.
    pub montant_vendu_mineur: i64,
    /// Ce qui reste dû — **peut être négatif** : un départ anticipé existe.
    pub difference_mineur: i64,
}

/// Ce que le moteur décide. **Il calcule, il ne facture pas.**
#[derive(Debug, Clone, PartialEq, Eq)]
pub struct DecisionTarification {
    pub duree_reelle_minutes: i64,
    pub formule_appliquee: FamilleFormule,
    /// Absent quand la durée a fait basculer en nuitée.
    pub palier_retenu_minutes: Option<i32>,
    pub heures_supplementaires: i32,
    /// Entier d'unité mineure.
    pub montant_du_mineur: i64,
    /// ISO 4217, au même niveau que le montant.
    pub devise: String,
    pub rebascule: Option<Rebascule>,
    /// Horodatage d'autorité serveur.
    pub instant_autorite: Horodatage,
}

/// `i` désigne le palier **vendu** : le premier, dans l'ordre donné, dont la durée couvre la
/// durée commerciale.
pub open spec fn palier_vendu(p: Seq<Palier>, vendue: int, i: int) -> bool {
    &&& 0 <= i < p.len()
    &&& p[i].duree_minutes >= vendue
    &&& forall|j: int| 0 <= j < i ==> #[trigger] p[j].duree_minutes < vendue
}

/// La rebascule, s'il y en a une : il faut un palier vendu, et que le palier retenu en diffère
/// — une bascule en nuitée en est toujours une.
pub open spec fn rebascule_spec(p: Seq<Palier>, vendue: int, c: Calcul) -> Option<Rebascule> {
    if exists|i: int| palier_vendu(p, vendue, i) {
        let i = choose|i: int| palier_vendu(p, vendue, i);
        let v = p[i];
        let a_change = match c.palier_retenu_minutes {
            None => true,
            Some(r) => r != v.duree_minutes,
        };
        if a_change {
            Some(
                Rebascule {
                    palier_vendu_minutes: v.duree_minutes,
                    montant_vendu_mineur: v.prix_mineur,
                    difference_mineur: (c.montant_du_mineur - v.prix_mineur) as i64,
                },
            )
        } else {
            None
        }
    } else {
        None
    }
}

/// La rebascule compare le palier **vendu** — le premier palier qui couvre la durée vendue — à ce
/// que la durée réelle retient. Il y a rebascule, avec ce palier vendu et la différence « montant
/// dû − prix vendu », dès que le palier retenu n'est pas le palier vendu ; une bascule en nuitée,
/// qui ne retient aucun palier, en est une. Le même palier retenu n'en fait aucune, et sans palier
/// vendu il n'y en a pas.
pub proof fn loi_rebascule(p: Seq<Palier>, vendue: int, c: Calcul, i: int)
    ensures
        palier_vendu(p, vendue, i) && c.palier_retenu_minutes != Some(p[i].duree_minutes)
            && i64::MIN <= c.montant_du_mineur - p[i].prix_mineur <= i64::MAX ==> (rebascule_spec(
            p,
            vendue,
            c,
        ) matches Some(rb) && rb.palier_vendu_minutes == p[i].duree_minutes
            && rb.montant_vendu_mineur == p[i].prix_mineur && rb.difference_mineur
            == c.montant_du_mineur - p[i].prix_mineur),
        palier_vendu(p, vendue, i) && c.palier_retenu_minutes is None && i64::MIN
            <= c.montant_du_mineur - p[i].prix_mineur <= i64::MAX ==> rebascule_spec(p, vendue, c)
            is Some,
        palier_vendu(p, vendue, i) && c.palier_retenu_minutes == Some(p[i].duree_minutes)
            ==> rebascule_spec(p, vendue, c) is None,
        (forall|j: int| 0 <= j < p.len() ==> #[trigger] p[j].duree_minutes < vendue)
            ==> rebascule_spec(p, vendue, c) is None,
{
    if palier_vendu(p, vendue, i) {
        let k = choose|k: int| palier_vendu(p, vendue, k);
        lemme_palier_vendu_unique(p, vendue, k, i);
    }
    if forall|j: int| 0 <= j < p.len() ==> #[trigger] p[j].duree_minutes < vendue {
        assert(!exists|k: int| palier_vendu(p, vendue, k)) by {
            if exists|k: int| palier_vendu(p, vendue, k) {
                let k = choose|k: int| palier_vendu(p, vendue, k);
                assert(p[k].duree_minutes < vendue);
            }
        }
    }
}

/// La différence d'une rebascule tient dans un entier de 64 bits.
pub open spec fn rebascule_representable(p: Seq<Palier>, vendue: int, c: Calcul) -> bool {
    forall|i: int|
        palier_vendu(p, vendue, i) ==> i64::MIN <= c.montant_du_mineur - #[trigger] p[i].prix_mineur
            <= i64::MAX
}

proof fn lemme_palier_vendu_unique(p: Seq<Palier>, vendue: int, i: int, j: int)
    requires
        palier_vendu(p, vendue, i),
        palier_vendu(p, vendue, j),
    ensures
        i == j,
{
    if i < j {
        assert(p[i].duree_minutes < vendue);
    } else if j < i {
        assert(p[j].duree_minutes < vendue);
    }
}

/// La rebascule d'un calcul de passage : le palier **vendu** — celui que la durée commerciale
/// annonçait — contre celui que la durée réelle retient.
pub fn rebascule(paliers: &[Palier], duree_vendue_minutes: i64, calcul: &Calcul) -> (r: Option<
    Rebascule,
>)
    requires
        rebascule_representable(paliers@, duree_vendue_minutes as int, *calcul),
    ensures
        r == rebascule_spec(paliers@, duree_vendue_minutes as int, *calcul),
{
    let ghost p = paliers@;
    let mut i: usize = 0;
    while i < paliers.len() && (paliers[i].duree_minutes as i64) < duree_vendue_minutes
        invariant
            p == paliers@,
            0 <= i <= p.len(),
            forall|j: int| 0 <= j < i ==> #[trigger] p[j].duree_minutes < duree_vendue_minutes,
        decreases p.len() - i,
    {
        i = i + 1;
    }
    if i == paliers.len() {
        assert(!(exists|k: int| palier_vendu(p, duree_vendue_minutes as int, k))) by {
            if exists|k: int| palier_vendu(p, duree_vendue_minutes as int, k) {
                let k = choose|k: int| palier_vendu(p, duree_vendue_minutes as int, k);
                assert(p[k].duree_minutes < duree_vendue_minutes);
            }
        }
        return None;
    }
    assert(palier_vendu(p, duree_vendue_minutes as int, i as int));
    proof {
        let k = choose|k: int| palier_vendu(p, duree_vendue_minutes as int, k);
        lemme_palier_vendu_unique(p, duree_vendue_minutes as int, k, i as int);
    }
    let vendu = paliers[i];
    let a_change = match calcul.palier_retenu_minutes {
        None => true,
        Some(retenu) => retenu != vendu.duree_minutes,
    };
    if !a_change {
        return None;
    }
    Some(
        Rebascule {
            palier_vendu_minutes: vendu.duree_minutes,
            montant_vendu_mineur: vendu.prix_mineur,
            difference_mineur: calcul.montant_du_mineur - vendu.prix_mineur,
        },
    )
}

/// Le seuil de bascule lu en configuration : un entier qui tient dans 32 bits, sinon aucun.
pub fn seuil_bascule_depuis(valeur: Option<i64>) -> (r: Option<i32>)
    ensures
        r == match valeur {
            Some(n) => if i32::MIN <= n <= i32::MAX {
                Some(n as i32)
            } else {
                None
            },
            None => None,
        },
{
    match valeur {
        Some(n) => if i32::MIN as i64 <= n && n <= i32::MAX as i64 {
            Some(n as i32)
        } else {
            None
        },
        None => None,
    }
}

/// Ce que la décision de tarification rend pour un passage, selon le barème.
pub open spec fn decision_passage(
    duree: i64,
    p: Seq<Palier>,
    prix_heure: Option<i64>,
    seuil: Option<i32>,
    prix_nuitee: Option<i64>,
    vendue: i64,
    c: Calcul,
    d: DecisionTarification,
) -> bool {
    &&& d.duree_reelle_minutes == duree
    &&& d.formule_appliquee == c.formule_appliquee
    &&& d.palier_retenu_minutes == c.palier_retenu_minutes
    &&& d.heures_supplementaires == c.heures_supplementaires
    &&& d.montant_du_mineur == c.montant_du_mineur
    &&& d.rebascule == rebascule_spec(p, vendue as int, c)
}

/// Les montants d'une décision de tarification tiennent-ils dans des entiers de 64 bits ? C'est
/// ce qu'un appelant teste avant [`decider_tarification`] : pour un passage, le barème, puis la
/// différence avec le palier vendu.
pub fn decision_tient(
    famille: FamilleFormule,
    duree_reelle_minutes: i64,
    paliers: &[Palier],
    prix_heure_supplementaire_mineur: Option<i64>,
    seuil_bascule_minutes: Option<i32>,
    prix_nuitee_mineur: Option<i64>,
    duree_vendue_minutes: i64,
) -> (r: bool)
    ensures
        r == (famille == FamilleFormule::Passage ==> {
            &&& calcul_representable(
                duree_reelle_minutes as int,
                paliers@,
                prix_heure_supplementaire_mineur,
                seuil_bascule_minutes,
                prix_nuitee_mineur,
            )
            &&& (calcul_attendu(
                duree_reelle_minutes as int,
                paliers@,
                prix_heure_supplementaire_mineur,
                seuil_bascule_minutes,
                prix_nuitee_mineur,
            ) matches Ok(c) ==> rebascule_representable(paliers@, duree_vendue_minutes as int, c))
        }),
{
    let ghost p = paliers@;
    let ghost vendue = duree_vendue_minutes as int;
    if famille != FamilleFormule::Passage {
        return true;
    }
    if !calcul_tient(
        duree_reelle_minutes,
        paliers,
        prix_heure_supplementaire_mineur,
        seuil_bascule_minutes,
        prix_nuitee_mineur,
    ) {
        return false;
    }
    let calcul = match calculer(
        duree_reelle_minutes,
        paliers,
        prix_heure_supplementaire_mineur,
        seuil_bascule_minutes,
        prix_nuitee_mineur,
    ) {
        Err(_) => {
            return true;
        },
        Ok(c) => c,
    };
    let mut i: usize = 0;
    while i < paliers.len() && (paliers[i].duree_minutes as i64) < duree_vendue_minutes
        invariant
            p == paliers@,
            0 <= i <= p.len(),
            forall|j: int| 0 <= j < i ==> #[trigger] p[j].duree_minutes < duree_vendue_minutes,
        decreases p.len() - i,
    {
        i = i + 1;
    }
    if i == paliers.len() {
        assert forall|k: int| palier_vendu(p, vendue, k) implies i64::MIN <= calcul.montant_du_mineur
            - #[trigger] p[k].prix_mineur <= i64::MAX by {
            assert(p[k].duree_minutes < duree_vendue_minutes);
        }
        return true;
    }
    assert(palier_vendu(p, vendue, i as int));
    let difference: i128 = calcul.montant_du_mineur as i128 - paliers[i].prix_mineur as i128;
    let r = i64::MIN as i128 <= difference && difference <= i64::MAX as i128;
    assert(r == rebascule_representable(p, vendue, calcul)) by {
        assert forall|k: int| palier_vendu(p, vendue, k) implies k == i as int by {
            lemme_palier_vendu_unique(p, vendue, k, i as int);
        }
    }
    r
}

/// **Décide le montant dû pour une occupation**, à l'instant d'autorité serveur.
///
/// Une nuitée, un mois ou une demi-journée n'ont pas de barème : leur montant est leur prix
/// d'appel. Un passage passe par le barème, avec la durée réelle, le seuil de bascule et le prix
/// de la nuitée de la même catégorie ; la rebascule compare au palier vendu.
pub fn decider_tarification(
    famille: FamilleFormule,
    duree_reelle_minutes: i64,
    prix_mineur: i64,
    paliers: &[Palier],
    prix_heure_supplementaire_mineur: Option<i64>,
    seuil_bascule_minutes: Option<i32>,
    prix_nuitee_mineur: Option<i64>,
    duree_vendue_minutes: i64,
    devise: String,
    instant_autorite: Horodatage,
) -> (r: Result<DecisionTarification, ErreurAttribution>)
    requires
        famille == FamilleFormule::Passage ==> calcul_representable(
            duree_reelle_minutes as int,
            paliers@,
            prix_heure_supplementaire_mineur,
            seuil_bascule_minutes,
            prix_nuitee_mineur,
        ),
        famille == FamilleFormule::Passage ==> (calcul_attendu(
            duree_reelle_minutes as int,
            paliers@,
            prix_heure_supplementaire_mineur,
            seuil_bascule_minutes,
            prix_nuitee_mineur,
        ) matches Ok(c) ==> rebascule_representable(paliers@, duree_vendue_minutes as int, c)),
    ensures
        famille != FamilleFormule::Passage ==> r == Ok::<DecisionTarification, ErreurAttribution>(
            DecisionTarification {
                duree_reelle_minutes,
                formule_appliquee: famille,
                palier_retenu_minutes: None,
                heures_supplementaires: 0,
                montant_du_mineur: prix_mineur,
                devise,
                rebascule: None,
                instant_autorite,
            },
        ),
        famille == FamilleFormule::Passage ==> match calcul_attendu(
            duree_reelle_minutes as int,
            paliers@,
            prix_heure_supplementaire_mineur,
            seuil_bascule_minutes,
            prix_nuitee_mineur,
        ) {
            Err(_) => r matches Err(ErreurAttribution::Referentiel(ErreurReferentiel::BaremeAbsent)),
            Ok(c) => r matches Ok(d) && decision_passage(
                duree_reelle_minutes,
                paliers@,
                prix_heure_supplementaire_mineur,
                seuil_bascule_minutes,
                prix_nuitee_mineur,
                duree_vendue_minutes,
                c,
                d,
            ) && d.devise == devise && d.instant_autorite == instant_autorite,
        },
{
    if famille != FamilleFormule::Passage {
        return Ok(
            DecisionTarification {
                duree_reelle_minutes,
                formule_appliquee: famille,
                palier_retenu_minutes: None,
                heures_supplementaires: 0,
                montant_du_mineur: prix_mineur,
                devise,
                rebascule: None,
                instant_autorite,
            },
        );
    }
    let calcul = match calculer(
        duree_reelle_minutes,
        paliers,
        prix_heure_supplementaire_mineur,
        seuil_bascule_minutes,
        prix_nuitee_mineur,
    ) {
        Ok(c) => c,
        Err(_) => {
            return Err(ErreurAttribution::Referentiel(ErreurReferentiel::BaremeAbsent));
        },
    };
    let rebascule = rebascule(paliers, duree_vendue_minutes, &calcul);
    Ok(
        DecisionTarification {
            duree_reelle_minutes,
            formule_appliquee: calcul.formule_appliquee,
            palier_retenu_minutes: calcul.palier_retenu_minutes,
            heures_supplementaires: calcul.heures_supplementaires,
            montant_du_mineur: calcul.montant_du_mineur,
            devise,
            rebascule,
            instant_autorite,
        },
    )
}

} // verus!
