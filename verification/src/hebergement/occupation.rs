//! L'occupation d'une unité — **classe B**.
//!
//! Une occupation porte deux intervalles : les bornes **commerciales** que le client connaît, et
//! la période d'**indisponibilité**, remise en état comprise, que la contrainte d'exclusion
//! protège. Le serveur calcule la borne haute de la seconde ; le client ne l'envoie pas.
//!
//! L'attribution **tente l'insertion et traduit la violation** : elle ne lit jamais d'abord pour
//! décider. Ce module porte les décisions qui entourent cette tentative.

use vstd::prelude::*;
use crate::hebergement::erreurs::{
    CONTRAINTE_SANS_CHEVAUCHEMENT, ErreurSql, est_violation_exclusion, violation_exclusion,
};
use crate::hebergement::referentiel::{ErreurReferentiel, FamilleFormule, famille_de_code};
use crate::hebergement::Issue;
use crate::temps::{Horodatage, NANOS_PAR_MINUTE, minutes_ecoulees, minutes_entre};
use crate::texte::egal;

verus! {

/// L'état d'une occupation.
#[derive(Debug, Clone, Copy, PartialEq, Eq, Structural)]
pub enum StatutOccupation {
    Active,
    /// Libérée, jamais supprimée.
    Liberee,
}

impl StatutOccupation {
    pub open spec fn code_spec(self) -> Seq<char> {
        match self {
            StatutOccupation::Active => "active"@,
            StatutOccupation::Liberee => "liberee"@,
        }
    }

    /// Le code stocké en base.
    pub fn code(self) -> (r: &'static str)
        ensures
            r@ == self.code_spec(),
    {
        match self {
            StatutOccupation::Active => "active",
            StatutOccupation::Liberee => "liberee",
        }
    }

    /// Relit un statut depuis son code ; un code inconnu est refusé et nommé.
    pub fn depuis_code(code: &str) -> (r: Result<StatutOccupation, ErreurAttribution>)
        ensures
            match statut_occupation_de_code(code@) {
                Some(s) => r == Ok::<StatutOccupation, ErreurAttribution>(s),
                None => r matches Err(ErreurAttribution::StatutInconnu(s)) && s@ == code@,
            },
    {
        if egal(code, "active") {
            Ok(StatutOccupation::Active)
        } else if egal(code, "liberee") {
            Ok(StatutOccupation::Liberee)
        } else {
            Err(ErreurAttribution::StatutInconnu(code.to_owned()))
        }
    }
}

/// Le statut d'occupation dont `c` est le code, s'il y en a un.
pub open spec fn statut_occupation_de_code(c: Seq<char>) -> Option<StatutOccupation> {
    if c == StatutOccupation::Active.code_spec() {
        Some(StatutOccupation::Active)
    } else if c == StatutOccupation::Liberee.code_spec() {
        Some(StatutOccupation::Liberee)
    } else {
        None
    }
}

/// Chaque statut d'occupation se relit depuis son code.
pub proof fn loi_statut_occupation_aller_retour(s: StatutOccupation)
    ensures
        statut_occupation_de_code(s.code_spec()) == Some(s),
{
    reveal_strlit("active");
    reveal_strlit("liberee");
    assert("active"@.len() == 6);
    assert("liberee"@.len() == 7);
}

/// Le type de refus qui traverse toute la verticale.
#[derive(Debug)]
pub enum ErreurAttribution {
    /// Violation de la contrainte d'exclusion — la seule qui vient de la base.
    UniteDejaOccupee,
    /// La formule n'appartient pas à la catégorie de l'unité.
    FormuleHorsCategorie,
    /// Demi-journée : l'intervalle demandé ne coïncide pas avec une plage déclarée.
    PlageNonFractionnable,
    /// Fin ≤ début.
    IntervalleInvalide,
    /// Durée hors des bornes de la formule.
    DureeHorsContrainte,
    UniteInconnue,
    FormuleInconnue,
    OccupationInconnue,
    OccupationDejaLiberee,
    StatutInconnu(String),
    ServiceInactif,
    EtablissementInconnu,
    /// Une erreur de base qui n'est pas un refus métier.
    Base(ErreurSql),
    /// Une autre panne d'infrastructure — grand livre, annuaire, registre.
    Interne(String),
    Referentiel(ErreurReferentiel),
}

impl ErreurAttribution {
    pub open spec fn code_spec(&self) -> Seq<char> {
        match self {
            ErreurAttribution::UniteDejaOccupee => "unite_deja_occupee"@,
            ErreurAttribution::FormuleHorsCategorie => "formule_hors_categorie"@,
            ErreurAttribution::PlageNonFractionnable => "plage_non_fractionnable"@,
            ErreurAttribution::IntervalleInvalide => "intervalle_invalide"@,
            ErreurAttribution::DureeHorsContrainte => "duree_hors_contrainte"@,
            ErreurAttribution::UniteInconnue => "unite_inconnue"@,
            ErreurAttribution::FormuleInconnue => "formule_inconnue"@,
            ErreurAttribution::OccupationInconnue => "occupation_inconnue"@,
            ErreurAttribution::OccupationDejaLiberee => "occupation_deja_liberee"@,
            ErreurAttribution::StatutInconnu(_) => "statut_inconnu"@,
            ErreurAttribution::ServiceInactif => "service_inactif"@,
            ErreurAttribution::EtablissementInconnu => "etablissement_inconnu"@,
            ErreurAttribution::Referentiel(e) => e.code_spec(),
            ErreurAttribution::Base(_) | ErreurAttribution::Interne(_) => "erreur_interne"@,
        }
    }

    /// Le code stable que le contrat HTTP rend.
    pub fn code(&self) -> (r: &'static str)
        ensures
            r@ == self.code_spec(),
    {
        match self {
            ErreurAttribution::UniteDejaOccupee => "unite_deja_occupee",
            ErreurAttribution::FormuleHorsCategorie => "formule_hors_categorie",
            ErreurAttribution::PlageNonFractionnable => "plage_non_fractionnable",
            ErreurAttribution::IntervalleInvalide => "intervalle_invalide",
            ErreurAttribution::DureeHorsContrainte => "duree_hors_contrainte",
            ErreurAttribution::UniteInconnue => "unite_inconnue",
            ErreurAttribution::FormuleInconnue => "formule_inconnue",
            ErreurAttribution::OccupationInconnue => "occupation_inconnue",
            ErreurAttribution::OccupationDejaLiberee => "occupation_deja_liberee",
            ErreurAttribution::StatutInconnu(_) => "statut_inconnu",
            ErreurAttribution::ServiceInactif => "service_inactif",
            ErreurAttribution::EtablissementInconnu => "etablissement_inconnu",
            ErreurAttribution::Referentiel(e) => e.code(),
            ErreurAttribution::Base(_) | ErreurAttribution::Interne(_) => "erreur_interne",
        }
    }
}

/// L'intervalle commercial est-il bien orienté ? Vérifié avant toute lecture en base.
pub fn verifier_intervalle(debut: Horodatage, fin: Horodatage) -> (r: Result<(), ErreurAttribution>)
    ensures
        fin.unix_nanos <= debut.unix_nanos ==> r matches Err(ErreurAttribution::IntervalleInvalide),
        fin.unix_nanos > debut.unix_nanos ==> r is Ok,
{
    if fin.unix_nanos <= debut.unix_nanos {
        Err(ErreurAttribution::IntervalleInvalide)
    } else {
        Ok(())
    }
}

/// La durée demandée, en minutes entières, tient-elle dans les bornes de la formule ?
pub open spec fn duree_dans_les_bornes(duree: int, min: Option<i32>, max: Option<i32>) -> bool {
    &&& min matches Some(m) ==> duree >= m
    &&& max matches Some(m) ==> duree <= m
}

/// Relit la famille de la formule puis vérifie la durée demandée contre ses bornes : une
/// famille inconnue en base est un refus du référentiel, une durée hors bornes un refus nommé.
pub fn verifier_formule(
    code_famille: &str,
    duree_min_minutes: Option<i32>,
    duree_max_minutes: Option<i32>,
    debut: Horodatage,
    fin: Horodatage,
) -> (r: Result<FamilleFormule, ErreurAttribution>)
    requires
        debut.valide(),
        fin.valide(),
    ensures
        match famille_de_code(code_famille@) {
            None => r matches Err(ErreurAttribution::Referentiel(ErreurReferentiel::FamilleInconnue(s)))
                && s@ == code_famille@,
            Some(f) => if duree_dans_les_bornes(
                minutes_entre(debut, fin),
                duree_min_minutes,
                duree_max_minutes,
            ) {
                r matches Ok(g) && g == f
            } else {
                r matches Err(ErreurAttribution::DureeHorsContrainte)
            },
        },
{
    let famille = match FamilleFormule::depuis_code(code_famille) {
        Ok(f) => f,
        Err(e) => {
            return Err(ErreurAttribution::Referentiel(e));
        },
    };
    let duree = minutes_ecoulees(debut, fin);
    if let Some(min) = duree_min_minutes {
        if duree < min as i64 {
            return Err(ErreurAttribution::DureeHorsContrainte);
        }
    }
    if let Some(max) = duree_max_minutes {
        if duree > max as i64 {
            return Err(ErreurAttribution::DureeHorsContrainte);
        }
    }
    Ok(famille)
}

/// Une plage déclarée d'une demi-journée, en instants.
#[derive(Debug, Clone, Copy, PartialEq, Eq, Structural)]
pub struct PlageEnInstants {
    pub debut: Horodatage,
    pub fin: Horodatage,
}

/// **Une demi-journée se loue en entier** : l'intervalle demandé doit coïncider exactement
/// — comme instants — avec une plage déclarée.
pub fn verifier_plage(plages: &[PlageEnInstants], debut: Horodatage, fin: Horodatage) -> (r: Result<
    (),
    ErreurAttribution,
>)
    ensures
        (exists|i: int|
            0 <= i < plages@.len() && #[trigger] plages@[i].debut.unix_nanos == debut.unix_nanos
                && plages@[i].fin.unix_nanos == fin.unix_nanos) ==> r is Ok,
        !(exists|i: int|
            0 <= i < plages@.len() && #[trigger] plages@[i].debut.unix_nanos == debut.unix_nanos
                && plages@[i].fin.unix_nanos == fin.unix_nanos) ==> r matches Err(
            ErreurAttribution::PlageNonFractionnable,
        ),
{
    let mut i: usize = 0;
    while i < plages.len()
        invariant
            0 <= i <= plages@.len(),
            forall|j: int|
                0 <= j < i ==> !(#[trigger] plages@[j].debut.unix_nanos == debut.unix_nanos
                    && plages@[j].fin.unix_nanos == fin.unix_nanos),
        decreases plages@.len() - i,
    {
        let p = plages[i];
        if p.debut.unix_nanos == debut.unix_nanos && p.fin.unix_nanos == fin.unix_nanos {
            return Ok(());
        }
        i = i + 1;
    }
    Err(ErreurAttribution::PlageNonFractionnable)
}

/// La borne haute de la période d'indisponibilité : la fin commerciale plus le battement de
/// remise en état. C'est le serveur qui la calcule.
pub open spec fn fin_de_periode_spec(fin_client: Horodatage, battement_minutes: i32) -> Horodatage {
    Horodatage {
        unix_nanos: (fin_client.unix_nanos + battement_minutes * NANOS_PAR_MINUTE) as i128,
        decalage_secondes: fin_client.decalage_secondes,
    }
}

/// La borne haute de la période d'indisponibilité.
pub fn fin_de_periode(fin_client: Horodatage, battement_minutes: i32) -> (r: Horodatage)
    requires
        fin_client.valide(),
        fin_de_periode_spec(fin_client, battement_minutes).valide(),
    ensures
        r == fin_de_periode_spec(fin_client, battement_minutes),
        r.unix_nanos == fin_client.unix_nanos + battement_minutes * 60_000_000_000,
        r.decalage_secondes == fin_client.decalage_secondes,
{
    Horodatage {
        unix_nanos: fin_client.unix_nanos + battement_minutes as i128 * NANOS_PAR_MINUTE,
        decalage_secondes: fin_client.decalage_secondes,
    }
}

/// Traduit l'issue de la tentative d'insertion : la violation de **la** contrainte d'exclusion
/// devient `unite_deja_occupee` ; toute autre erreur reste une panne.
pub fn traduire_insertion(resultat: Result<bool, ErreurSql>) -> (r: Result<bool, ErreurAttribution>)
    ensures
        match resultat {
            Ok(c) => r == Ok::<bool, ErreurAttribution>(c),
            Err(e) => if violation_exclusion(&e, CONTRAINTE_SANS_CHEVAUCHEMENT@) {
                r matches Err(ErreurAttribution::UniteDejaOccupee)
            } else {
                r == Err::<bool, ErreurAttribution>(ErreurAttribution::Base(e))
            },
        },
{
    match resultat {
        Ok(creee) => Ok(creee),
        Err(erreur) => {
            if est_violation_exclusion(&erreur, CONTRAINTE_SANS_CHEVAUCHEMENT) {
                Err(ErreurAttribution::UniteDejaOccupee)
            } else {
                Err(ErreurAttribution::Base(erreur))
            }
        },
    }
}

/// L'issue d'une écriture idempotente : créée, ou déjà présente (rejeu).
pub fn issue_de(creee: bool) -> (r: Issue)
    ensures
        r == (if creee {
            Issue::Creee
        } else {
            Issue::DejaPresente
        }),
{
    if creee {
        Issue::Creee
    } else {
        Issue::DejaPresente
    }
}

/// La période d'indisponibilité finit exactement `battement` minutes après la fin commerciale —
/// jamais avant quand le battement est positif ou nul, quel que soit le décalage horaire sous
/// lequel la fin est exprimée, qui reste celui de la fin.
pub proof fn loi_fin_de_periode(fin_client: Horodatage, battement_minutes: i32)
    requires
        fin_client.valide(),
    ensures
        fin_de_periode_spec(fin_client, battement_minutes).unix_nanos == fin_client.unix_nanos
            + battement_minutes * 60_000_000_000,
        fin_de_periode_spec(fin_client, battement_minutes).decalage_secondes
            == fin_client.decalage_secondes,
        battement_minutes >= 0 ==> fin_de_periode_spec(fin_client, battement_minutes).unix_nanos
            >= fin_client.unix_nanos,
        forall|autre: i32|
            #![auto]
            fin_de_periode_spec(
                Horodatage { unix_nanos: fin_client.unix_nanos, decalage_secondes: autre },
                battement_minutes,
            ).unix_nanos == fin_de_periode_spec(fin_client, battement_minutes).unix_nanos,
{
}

} // verus!
