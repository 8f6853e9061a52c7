//! Traduction des erreurs de base en refus métier — **écrite une seule fois** — et les refus du
//! parcours de séjour.

use vstd::prelude::*;
use crate::texte::egal;
use crate::hebergement::occupation::ErreurAttribution;

verus! {

/// Le genre d'une erreur renvoyée par la base de données.
#[derive(Debug, Clone, Copy, PartialEq, Eq, Structural)]
pub enum GenreErreurBase {
    UniqueViolation,
    ForeignKeyViolation,
    NotNullViolation,
    CheckViolation,
    ExclusionViolation,
    Autre,
}

/// Une erreur d'accès aux données, réduite à ce que la traduction en lit.
#[derive(Debug)]
pub enum ErreurSql {
    /// Une erreur rendue par la base elle-même.
    Base { genre: GenreErreurBase, contrainte: Option<String>, code: Option<String> },
    /// Toute autre panne : délai dépassé, connexion coupée, pool fermé.
    Autre(String),
}

/// Nom de la contrainte d'exclusion qui protège l'occupation des unités.
pub const CONTRAINTE_SANS_CHEVAUCHEMENT: &'static str = "occupation_sans_chevauchement";

/// Code SQLSTATE de l'interblocage.
pub const SQLSTATE_INTERBLOCAGE: &'static str = "40P01";

/// L'erreur est-elle la violation de **cette** contrainte d'exclusion ?
pub open spec fn violation_exclusion(erreur: &ErreurSql, contrainte: Seq<char>) -> bool {
    match erreur {
        ErreurSql::Base { genre, contrainte: Some(c), .. } => *genre
            == GenreErreurBase::ExclusionViolation && c@ == contrainte,
        _ => false,
    }
}

/// Cette erreur est-elle la violation de **cette** contrainte d'exclusion ? Le nom de contrainte
/// est vérifié, pas seulement le genre d'erreur : une seconde contrainte d'exclusion ne doit pas
/// faire passer ses violations pour des doubles attributions.
pub fn est_violation_exclusion(erreur: &ErreurSql, contrainte: &str) -> (r: bool)
    ensures
        r == violation_exclusion(erreur, contrainte@),
{
    match erreur {
        ErreurSql::Base { genre, contrainte: Some(c), .. } => {
            *genre == GenreErreurBase::ExclusionViolation && egal(c.as_str(), contrainte)
        },
        _ => false,
    }
}

/// L'erreur est-elle un interblocage (SQLSTATE `40P01`) ?
pub open spec fn interblocage(erreur: &ErreurSql) -> bool {
    match erreur {
        ErreurSql::Base { code: Some(c), .. } => c@ == SQLSTATE_INTERBLOCAGE@,
        _ => false,
    }
}

/// Cette erreur est-elle un **interblocage** ? Il est transitoire par définition : la réponse
/// est un réessai, jamais une traduction en unité occupée.
pub fn est_interblocage(erreur: &ErreurSql) -> (r: bool)
    ensures
        r == interblocage(erreur),
{
    match erreur {
        ErreurSql::Base { code: Some(c), .. } => egal(c.as_str(), SQLSTATE_INTERBLOCAGE),
        _ => false,
    }
}

/// Le type de refus du parcours de séjour ; chaque variante porte un code stable.
#[derive(Debug)]
pub enum ErreurSejour {
    /// Le séjour est déjà terminé.
    SejourDejaClos,
    /// Prolongation d'un séjour clos.
    SejourClos,
    /// Le refus qui nomme son conflit.
    ConflitOccupationSuivante,
    /// L'unité visée par un changement de chambre n'est pas libre sur la période restante.
    UniteCibleOccupee,
    /// Le franchissement du seuil de bascule doit être confirmé avant.
    BasculeFormuleNonConfirmee,
    SejourInconnu,
    NoteInconnue,
    AccompagnantInconnu,
    ClientInconnu,
    EtablissementInconnu,
    ServiceInactif,
    /// Un refus venu du moteur de disponibilité ou de tarification.
    Attribution(ErreurAttribution),
    /// Une panne d'infrastructure — base, grand livre, contexte de tenant.
    Interne(String),
    /// L'annuaire des clients a échoué.
    Annuaire(String),
    /// Le registre des actions a échoué.
    Audit(String),
}

impl ErreurSejour {
    pub open spec fn code_spec(&self) -> Seq<char> {
        match self {
            ErreurSejour::SejourDejaClos => "sejour_deja_clos"@,
            ErreurSejour::SejourClos => "sejour_clos"@,
            ErreurSejour::ConflitOccupationSuivante => "conflit_occupation_suivante"@,
            ErreurSejour::UniteCibleOccupee => "unite_cible_occupee"@,
            ErreurSejour::BasculeFormuleNonConfirmee => "bascule_formule_non_confirmee"@,
            ErreurSejour::SejourInconnu => "sejour_inconnu"@,
            ErreurSejour::NoteInconnue => "note_inconnue"@,
            ErreurSejour::AccompagnantInconnu => "accompagnant_inconnu"@,
            ErreurSejour::ClientInconnu => "client_inconnu"@,
            ErreurSejour::EtablissementInconnu => "etablissement_inconnu"@,
            ErreurSejour::ServiceInactif => "service_inactif"@,
            ErreurSejour::Attribution(e) => match e {
                ErreurAttribution::UniteDejaOccupee => "unite_deja_occupee"@,
                ErreurAttribution::FormuleHorsCategorie => "formule_hors_categorie"@,
                ErreurAttribution::PlageNonFractionnable => "plage_non_fractionnable"@,
                ErreurAttribution::IntervalleInvalide => "intervalle_invalide"@,
                ErreurAttribution::DureeHorsContrainte => "duree_hors_contrainte"@,
                ErreurAttribution::UniteInconnue => "unite_inconnue"@,
                ErreurAttribution::FormuleInconnue => "formule_inconnue"@,
                ErreurAttribution::OccupationInconnue => "occupation_inconnue"@,
                ErreurAttribution::ServiceInactif => "service_inactif"@,
                ErreurAttribution::EtablissementInconnu => "etablissement_inconnu"@,
                _ => "erreur_interne"@,
            },
            _ => "erreur_interne"@,
        }
    }

    /// Le code stable rendu à l'interface. Un refus du moteur d'attribution garde **son** code.
    pub fn code(&self) -> (r: &'static str)
        ensures
            r@ == self.code_spec(),
    {
        match self {
            ErreurSejour::SejourDejaClos => "sejour_deja_clos",
            ErreurSejour::SejourClos => "sejour_clos",
            ErreurSejour::ConflitOccupationSuivante => "conflit_occupation_suivante",
            ErreurSejour::UniteCibleOccupee => "unite_cible_occupee",
            ErreurSejour::BasculeFormuleNonConfirmee => "bascule_formule_non_confirmee",
            ErreurSejour::SejourInconnu => "sejour_inconnu",
            ErreurSejour::NoteInconnue => "note_inconnue",
            ErreurSejour::AccompagnantInconnu => "accompagnant_inconnu",
            ErreurSejour::ClientInconnu => "client_inconnu",
            ErreurSejour::EtablissementInconnu => "etablissement_inconnu",
            ErreurSejour::ServiceInactif => "service_inactif",
            ErreurSejour::Attribution(e) => match e {
                ErreurAttribution::UniteDejaOccupee => "unite_deja_occupee",
                ErreurAttribution::FormuleHorsCategorie => "formule_hors_categorie",
                ErreurAttribution::PlageNonFractionnable => "plage_non_fractionnable",
                ErreurAttribution::IntervalleInvalide => "intervalle_invalide",
                ErreurAttribution::DureeHorsContrainte => "duree_hors_contrainte",
                ErreurAttribution::UniteInconnue => "unite_inconnue",
                ErreurAttribution::FormuleInconnue => "formule_inconnue",
                ErreurAttribution::OccupationInconnue => "occupation_inconnue",
                ErreurAttribution::ServiceInactif => "service_inactif",
                ErreurAttribution::EtablissementInconnu => "etablissement_inconnu",
                _ => "erreur_interne",
            },
            _ => "erreur_interne",
        }
    }
}

} // verus!
