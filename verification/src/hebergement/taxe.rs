//! Le **constat** de taxe figé au départ : des faits et un paramétrage recopié, aucun montant.
//!
//! Compter les nuits d'un intervalle est de l'arithmétique ; décider lesquelles sont assujetties
//! est une règle fiscale, qui ne vit pas ici.

use vstd::prelude::*;
use crate::temps::{Horodatage, jour_local};

verus! {

/// Le nombre, ramené au plus grand `i32` s'il le dépasse.
pub open spec fn sature_i32(n: int) -> i32 {
    if n <= i32::MAX {
        n as i32
    } else {
        i32::MAX
    }
}

/// Le nombre de nuits calendaires d'une période : les frontières de jour **local** franchies
/// entre le début et la fin — zéro pour une période vide ou inversée.
pub open spec fn nuits_calendaires_spec(debut: Horodatage, fin: Horodatage) -> i32 {
    if fin.unix_nanos <= debut.unix_nanos {
        0
    } else {
        let jours = fin.jour_local() - debut.jour_local();
        sature_i32(if jours > 0 { jours } else { 0 })
    }
}

/// Le nombre de **nuits calendaires** d'une période — arithmétique pure.
///
/// Une nuit est comptée dès qu'une frontière de jour calendaire est franchie : deux heures
/// l'après-midi n'en franchissent aucune, dix heures à cheval sur minuit en franchissent une.
/// La fonction ne réduit rien : trois nuits en font trois.
pub fn nuits_calendaires(debut: Horodatage, fin: Horodatage) -> (r: i32)
    requires
        debut.valide(),
        fin.valide(),
    ensures
        r == nuits_calendaires_spec(debut, fin),
{
    if fin.unix_nanos <= debut.unix_nanos {
        return 0;
    }
    let jours = jour_local(fin) - jour_local(debut);
    let jours = if jours > 0 { jours } else { 0 };
    if jours <= i32::MAX as i64 {
        jours as i32
    } else {
        i32::MAX
    }
}

/// Sous un même décalage horaire, compter les nuits d'une période découpée en deux revient à les
/// compter d'un bloc : le comptage ne perd ni n'invente aucune nuit à la coupure.
pub proof fn loi_nuits_additives(a: Horodatage, b: Horodatage, c: Horodatage)
    requires
        a.valide(),
        b.valide(),
        c.valide(),
        a.decalage_secondes == b.decalage_secondes,
        b.decalage_secondes == c.decalage_secondes,
        a.unix_nanos <= b.unix_nanos <= c.unix_nanos,
        c.jour_local() - a.jour_local() <= i32::MAX,
    ensures
        nuits_calendaires_spec(a, c) == nuits_calendaires_spec(a, b) + nuits_calendaires_spec(b, c),
{
    lemme_jour_monotone(a, b);
    lemme_jour_monotone(b, c);
}

/// Sous un même décalage, le jour local ne recule jamais quand l'instant avance.
pub proof fn lemme_jour_monotone(a: Horodatage, b: Horodatage)
    requires
        a.decalage_secondes == b.decalage_secondes,
        a.unix_nanos <= b.unix_nanos,
    ensures
        a.jour_local() <= b.jour_local(),
{
    vstd::arithmetic::div_mod::lemma_div_is_ordered(
        a.unix_nanos as int,
        b.unix_nanos as int,
        1_000_000_000,
    );
    let sa = (a.unix_nanos as int) / 1_000_000_000 + a.decalage_secondes;
    let sb = (b.unix_nanos as int) / 1_000_000_000 + b.decalage_secondes;
    vstd::arithmetic::div_mod::lemma_div_is_ordered(sa, sb, 86_400);
}

} // verus!
