//! Les instants du domaine.
//!
//! Un instant est ce que la logique en lit : sa position sur l'axe du temps, en nanosecondes
//! depuis l'époque Unix, et le décalage horaire sous lequel il a été exprimé — c'est ce décalage
//! qui détermine la **date locale** d'un instant. Les bornes sont celles des instants datés des
//! années −9999 à 9999.

use vstd::prelude::*;

verus! {

/// Un instant, avec le décalage horaire sous lequel il est exprimé.
#[derive(Debug, Clone, Copy, PartialEq, Eq, Structural)]
pub struct Horodatage {
    /// Nanosecondes écoulées depuis 1970-01-01T00:00:00Z (négatif avant).
    pub unix_nanos: i128,
    /// Décalage par rapport à UTC, en secondes.
    pub decalage_secondes: i32,
}

/// Nanosecondes dans une seconde, une minute, une journée.
pub const NANOS_PAR_SECONDE: i128 = 1_000_000_000;
pub const NANOS_PAR_MINUTE: i128 = 60_000_000_000;
pub const SECONDES_PAR_JOUR: i128 = 86_400;

/// Plus grand écart à l'époque, en nanosecondes, d'un instant daté des années −9999 à 9999.
pub const NANOS_LIMITE: i128 = 400_000_000_000_000_000_000;

impl Horodatage {
    /// L'instant est-il de ceux qu'un calendrier des années −9999 à 9999 sait dater, sous un
    /// décalage horaire d'au plus 26 heures ?
    pub open spec fn valide(self) -> bool {
        &&& -NANOS_LIMITE <= self.unix_nanos <= NANOS_LIMITE
        &&& -93_600 < self.decalage_secondes < 93_600
    }

    /// Le numéro du jour **local** de l'instant (le jour 0 est le 1970-01-01 local).
    pub open spec fn jour_local(self) -> int {
        ((self.unix_nanos as int) / (NANOS_PAR_SECONDE as int) + self.decalage_secondes)
            / (SECONDES_PAR_JOUR as int)
    }
}

/// La division entière **tronquée vers zéro**, celle des durées : `-90 s` font `-1 min`.
pub open spec fn division_tronquee(a: int, d: int) -> int {
    if a >= 0 {
        a / d
    } else {
        -((-a) / d)
    }
}

/// Les minutes entières écoulées de `debut` à `fin` — négatives si `fin` précède `debut`.
pub open spec fn minutes_entre(debut: Horodatage, fin: Horodatage) -> int {
    division_tronquee(fin.unix_nanos - debut.unix_nanos, NANOS_PAR_MINUTE as int)
}

/// Les minutes entières écoulées de `debut` à `fin`.
pub fn minutes_ecoulees(debut: Horodatage, fin: Horodatage) -> (r: i64)
    requires
        debut.valide(),
        fin.valide(),
    ensures
        r == minutes_entre(debut, fin),
{
    let ecart = fin.unix_nanos - debut.unix_nanos;
    if ecart >= 0 {
        (ecart / NANOS_PAR_MINUTE) as i64
    } else {
        -(((-ecart) / NANOS_PAR_MINUTE) as i64)
    }
}

/// L'instant `a` précède-t-il strictement `b` ? Le décalage n'y entre pas : deux expressions du
/// même instant sous deux fuseaux sont le même instant.
pub fn precede(a: Horodatage, b: Horodatage) -> (r: bool)
    ensures
        r == (a.unix_nanos < b.unix_nanos),
{
    a.unix_nanos < b.unix_nanos
}

/// La division par défaut d'un négatif se déduit de celle de son opposé.
proof fn lemme_division_negatif(a: int, d: int, q: int)
    requires
        a < 0,
        d > 0,
        q == (-a) / d,
    ensures
        q * d == -a ==> a / d == -q,
        q * d != -a ==> a / d == -q - 1,
{
    assert(0 <= (-a) - q * d < d) by (nonlinear_arith)
        requires
            a < 0,
            d > 0,
            q == (-a) / d,
    ;
    if q * d == -a {
        assert(a == (-q) * d) by (nonlinear_arith)
            requires
                q * d == -a,
        ;
        vstd::arithmetic::div_mod::lemma_fundamental_div_mod_converse(a, d, -q, 0);
    } else {
        let r = d - ((-a) - q * d);
        assert(a == (-q - 1) * d + r) by (nonlinear_arith)
            requires
                r == d - ((-a) - q * d),
        ;
        vstd::arithmetic::div_mod::lemma_fundamental_div_mod_converse(a, d, -q - 1, r);
    }
}

/// La division par défaut (vers −∞) de `a` par `d > 0`.
fn division_par_defaut(a: i128, d: i128) -> (r: i128)
    requires
        d > 0,
        -NANOS_LIMITE - 100_000 <= a <= NANOS_LIMITE + 100_000,
    ensures
        r == (a as int) / (d as int),
{
    if a >= 0 {
        a / d
    } else {
        let q = (-a) / d;
        assert(0 <= q * d <= -a) by (nonlinear_arith)
            requires
                a < 0,
                d > 0,
                q as int == (-(a as int)) / (d as int),
        ;
        proof {
            lemme_division_negatif(a as int, d as int, q as int);
        }
        if q * d == -a {
            -q
        } else {
            -q - 1
        }
    }
}

/// Le numéro du jour local d'un instant.
pub fn jour_local(h: Horodatage) -> (r: i64)
    requires
        h.valide(),
    ensures
        r == h.jour_local(),
{
    // Division par défaut (vers −∞), pour que le jour d'un instant d'avant l'époque soit bien
    // le jour calendaire qui le contient.
    let secondes = division_par_defaut(h.unix_nanos, NANOS_PAR_SECONDE);
    assert(-NANOS_LIMITE <= secondes <= NANOS_LIMITE) by (nonlinear_arith)
        requires
            secondes == (h.unix_nanos as int) / 1_000_000_000,
            -NANOS_LIMITE <= h.unix_nanos <= NANOS_LIMITE,
    ;
    let local = secondes + h.decalage_secondes as i128;
    let jour = division_par_defaut(local, SECONDES_PAR_JOUR);
    assert(-NANOS_LIMITE <= jour <= NANOS_LIMITE) by (nonlinear_arith)
        requires
            jour == (local as int) / 86_400,
            -NANOS_LIMITE - 100_000 <= local <= NANOS_LIMITE + 100_000,
    ;
    assert(-5_000_000_000_000_000 <= jour <= 5_000_000_000_000_000) by (nonlinear_arith)
        requires
            jour == (local as int) / 86_400,
            -NANOS_LIMITE - 100_000 <= local <= NANOS_LIMITE + 100_000,
    ;
    jour as i64
}

} // verus!
