//! Les consommateurs d'événements de démonstration — ils rendent l'idempotence **démontrable**.
//!
//! L'idempotence est une obligation : trois présentations du même événement doivent produire
//! l'effet d'une seule. Un redémarrage brutal du worker republie ce qui n'a pas été marqué.

use vstd::prelude::*;
use std::collections::HashSet;

verus! {

broadcast use vstd::std_specs::hash::group_hash_axioms;

/// Échec de consommation d'un événement publié : l'événement reste non marqué publié, donc
/// republié au tour suivant.
#[derive(Debug)]
pub enum ErreurConsommation {
    Traitement { consommateur: String, motif: String },
}

impl ErreurConsommation {
    pub open spec fn message_spec(&self) -> Seq<char> {
        match self {
            ErreurConsommation::Traitement { consommateur, motif } => "le consommateur « "@
                + consommateur@ + " » a échoué : "@ + motif@,
        }
    }

    /// Le message de diagnostic.
    pub fn message(&self) -> (r: String)
        ensures
            r@ == self.message_spec(),
    {
        match self {
            ErreurConsommation::Traitement { consommateur, motif } => {
                let mut m = String::from_str("le consommateur « ");
                m.append(consommateur.as_str());
                m.append(" » a échoué : ");
                m.append(motif.as_str());
                m
            },
        }
    }
}

/// Compte les événements **distincts** qui lui sont présentés.
#[derive(Debug)]
pub struct CompteurIdempotent {
    nom: &'static str,
    vus: HashSet<u128>,
}

impl CompteurIdempotent {
    /// Les identifiants des événements déjà traités.
    pub closed spec fn vus(&self) -> Set<u128> {
        self.vus@
    }

    pub closed spec fn nom_spec(&self) -> Seq<char> {
        self.nom@
    }

    pub fn nouveau(nom: &'static str) -> (r: Self)
        ensures
            r.vus() == Set::<u128>::empty(),
            r.nom_spec() == nom@,
    {
        CompteurIdempotent { nom, vus: HashSet::new() }
    }

    /// Le nom du consommateur.
    pub fn nom(&self) -> (r: &'static str)
        ensures
            r@ == self.nom_spec(),
    {
        self.nom
    }

    /// Nombre d'événements distincts traités — **pas** le nombre de présentations.
    pub fn distincts(&self) -> (r: usize)
        ensures
            r == self.vus().len(),
    {
        self.vus.len()
    }

    /// Cet événement a-t-il déjà été traité ?
    pub fn a_vu(&self, id: u128) -> (r: bool)
        ensures
            r == self.vus().contains(id),
    {
        self.vus.contains(&id)
    }

    /// Traite un événement : une seconde présentation ne produit aucun effet.
    pub fn consommer(&mut self, evenement_id: u128) -> (r: Result<(), ErreurConsommation>)
        ensures
            final(self).vus() == old(self).vus().insert(evenement_id),
            final(self).nom_spec() == old(self).nom_spec(),
            r is Ok,
    {
        self.vus.insert(evenement_id);
        Ok(())
    }
}

/// Présenter plusieurs fois le même événement produit l'effet d'une seule présentation.
pub proof fn loi_consommation_idempotente(vus: Set<u128>, id: u128)
    ensures
        vus.insert(id).insert(id) == vus.insert(id),
        vus.insert(id).insert(id).insert(id) == vus.insert(id),
{
    assert(vus.insert(id).insert(id) =~= vus.insert(id));
}

/// Les événements vus après la présentation, dans l'ordre, des événements `ids` : chaque
/// présentation fait ce que [`CompteurIdempotent::consommer`] fait.
pub open spec fn vus_apres(vus: Set<u128>, ids: Seq<u128>) -> Set<u128>
    decreases ids.len(),
{
    if ids.len() == 0 {
        vus
    } else {
        vus_apres(vus, ids.drop_last()).insert(ids.last())
    }
}

/// Présenter une suite d'événements à un [`CompteurIdempotent`], répétitions comprises — chaque
/// appel de `consommer` rend `Ok` et ajoute son identifiant, ce que `vus_apres` enchaîne —
/// ajoute aux événements vus exactement les identifiants de la suite ; la présenter une seconde
/// fois ne change plus rien. Depuis un compteur neuf, les événements vus sont les identifiants
/// distincts de la suite, et `distincts` rend leur nombre.
pub proof fn loi_consommation_suite(vus: Set<u128>, ids: Seq<u128>)
    ensures
        forall|id: u128| #[trigger] vus_apres(vus, ids.push(id)) == vus_apres(vus, ids).insert(id),
        vus_apres(Set::<u128>::empty(), ids).len() == ids.to_set().len(),
        vus_apres(vus, ids) == vus.union(ids.to_set()),
        vus_apres(vus_apres(vus, ids), ids) == vus_apres(vus, ids),
        vus_apres(Set::<u128>::empty(), ids) == ids.to_set(),
{
    assert forall|id: u128| #[trigger] vus_apres(vus, ids.push(id)) == vus_apres(vus, ids).insert(
        id,
    ) by {
        assert(ids.push(id).drop_last() =~= ids);
    }
    lemme_vus_apres(vus, ids);
    lemme_vus_apres(vus_apres(vus, ids), ids);
    lemme_vus_apres(Set::<u128>::empty(), ids);
    assert(vus.union(ids.to_set()).union(ids.to_set()) =~= vus.union(ids.to_set()));
    assert(Set::<u128>::empty().union(ids.to_set()) =~= ids.to_set());
}

proof fn lemme_vus_apres(vus: Set<u128>, ids: Seq<u128>)
    ensures
        vus_apres(vus, ids) == vus.union(ids.to_set()),
    decreases ids.len(),
{
    if ids.len() == 0 {
        assert(ids.to_set() =~= Set::<u128>::empty());
        assert(vus.union(ids.to_set()) =~= vus);
    } else {
        let debut = ids.drop_last();
        lemme_vus_apres(vus, debut);
        assert forall|x: u128| ids.to_set().contains(x) <==> debut.to_set().insert(
            ids.last(),
        ).contains(x) by {
            if ids.to_set().contains(x) {
                let i = choose|i: int| 0 <= i < ids.len() && ids[i] == x;
                if i < ids.len() - 1 {
                    assert(debut[i] == x);
                    assert(debut.to_set().contains(x));
                }
            }
            if debut.to_set().contains(x) {
                let i = choose|i: int| 0 <= i < debut.len() && debut[i] == x;
                assert(ids[i] == x);
            }
            if x == ids.last() {
                assert(ids[ids.len() - 1] == x);
            }
        }
        assert(vus_apres(vus, ids) =~= vus.union(ids.to_set()));
    }
}

/// Journalise chaque événement, sans état persistant : il compte les **présentations**,
/// republications comprises.
#[derive(Debug, Default)]
pub struct JournaliseurEvenements {
    presentations: usize,
}

impl JournaliseurEvenements {
    pub closed spec fn compte(&self) -> nat {
        self.presentations as nat
    }

    pub fn nouveau() -> (r: Self)
        ensures
            r.compte() == 0,
    {
        JournaliseurEvenements { presentations: 0 }
    }

    /// Le nom du consommateur.
    pub fn nom(&self) -> (r: &'static str)
        ensures
            r@ == "journaliseur"@,
    {
        "journaliseur"
    }

    /// Nombre de présentations, republications comprises.
    pub fn presentations(&self) -> (r: usize)
        ensures
            r == self.compte(),
    {
        self.presentations
    }

    /// Compte une présentation de plus.
    pub fn consommer(&mut self, evenement_id: u128) -> (r: Result<(), ErreurConsommation>)
        requires
            old(self).compte() < usize::MAX,
        ensures
            final(self).compte() == old(self).compte() + 1,
            r is Ok,
    {
        self.presentations = self.presentations + 1;
        Ok(())
    }
}

} // verus!
