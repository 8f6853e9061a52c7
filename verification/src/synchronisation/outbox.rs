//! Ce que décide l'écriture au grand livre et sa publication, hors de toute base.

use vstd::prelude::*;

verus! {

/// Écrivain d'événements adossé à PostgreSQL — sans état : la transaction lui est toujours
/// fournie par l'appelant.
#[derive(Debug, Default, Clone, Copy)]
pub struct PgOutboxWriter;

impl PgOutboxWriter {
    pub fn nouveau() -> (r: Self) {
        PgOutboxWriter
    }
}

/// La clé de la séquence d'un événement : l'établissement quand il y en a un, le tenant sinon —
/// un événement de niveau tenant est lui aussi ordonné.
pub fn cle_sequence(etablissement_id: Option<u128>, tenant_id: u128) -> (r: u128)
    ensures
        r == match etablissement_id {
            Some(e) => e,
            None => tenant_id,
        },
{
    match etablissement_id {
        Some(e) => e,
        None => tenant_id,
    }
}

/// Un événement est marqué publié si et seulement si **tous** les consommateurs l'ont traité.
pub fn tous_ont_reussi(resultats: &[bool]) -> (r: bool)
    ensures
        r == (forall|i: int| 0 <= i < resultats@.len() ==> resultats@[i]),
{
    let mut i: usize = 0;
    while i < resultats.len()
        invariant
            0 <= i <= resultats@.len(),
            forall|j: int| 0 <= j < i ==> resultats@[j],
        decreases resultats@.len() - i,
    {
        if !resultats[i] {
            return false;
        }
        i = i + 1;
    }
    true
}

/// Les événements d'un lot à marquer publiés : ceux que tous les consommateurs ont traités,
/// dans l'ordre du lot. Les autres seront republiés au tour suivant.
pub fn evenements_a_marquer(ids: &[u128], reussis: &[bool]) -> (r: Vec<u128>)
    requires
        ids@.len() == reussis@.len(),
    ensures
        r@ == filtre_reussis(ids@, reussis@),
{
    let mut r: Vec<u128> = Vec::new();
    let mut i: usize = 0;
    while i < ids.len()
        invariant
            ids@.len() == reussis@.len(),
            0 <= i <= ids@.len(),
            r@ == filtre_reussis(ids@.take(i as int), reussis@.take(i as int)),
        decreases ids@.len() - i,
    {
        if reussis[i] {
            r.push(ids[i]);
        }
        proof {
            assert(ids@.take(i + 1).drop_last() =~= ids@.take(i as int));
            assert(reussis@.take(i + 1).drop_last() =~= reussis@.take(i as int));
        }
        i = i + 1;
    }
    assert(ids@.take(ids@.len() as int) =~= ids@);
    assert(reussis@.take(reussis@.len() as int) =~= reussis@);
    r
}

/// Les identifiants dont le drapeau de réussite est levé, dans l'ordre.
pub open spec fn filtre_reussis(ids: Seq<u128>, reussis: Seq<bool>) -> Seq<u128>
    decreases ids.len(),
{
    if ids.len() == 0 || reussis.len() == 0 {
        Seq::empty()
    } else {
        let debut = filtre_reussis(ids.drop_last(), reussis.drop_last());
        if reussis.last() {
            debut.push(ids.last())
        } else {
            debut
        }
    }
}

/// Après un tour, le worker attend avant le suivant s'il n'a rien publié ou s'il a échoué ;
/// sinon il enchaîne. Une erreur de base ne l'arrête jamais.
pub fn doit_attendre(publies: Option<usize>) -> (r: bool)
    ensures
        r == match publies {
            None => true,
            Some(n) => n == 0,
        },
{
    match publies {
        None => true,
        Some(n) => n == 0,
    }
}

/// La configuration du worker de publication.
#[derive(Debug, Clone, Copy, PartialEq, Eq, Structural)]
pub struct ConfigurationWorker {
    /// Le nombre d'événements lus par tour.
    pub taille_lot: i64,
    /// L'attente entre deux tours sans publication, en millisecondes.
    pub intervalle_millis: u64,
    /// Un tenant unique à servir, ou tous.
    pub tenant: Option<u128>,
}

impl Default for ConfigurationWorker {
    /// Cent événements par lot, une demi-seconde d'attente, tous les tenants.
    fn default() -> (r: Self)
        ensures
            r == (ConfigurationWorker { taille_lot: 100, intervalle_millis: 500, tenant: None }),
    {
        ConfigurationWorker { taille_lot: 100, intervalle_millis: 500, tenant: None }
    }
}

} // verus!
