//! Les services d'un établissement : activer, désactiver, réactiver un module d'activité, et y
//! déclarer des capacités.
//!
//! Chaque étape du parcours — le référentiel, l'état du service, les obstacles — est une décision
//! sur ce que la base a rendu ; les lectures et les écritures restent à l'appelant.

use vstd::prelude::*;

use crate::etablissements::{Issue, Obstacle};

verus! {

/// Un module du référentiel : connu, et implémenté ou non.
#[derive(Debug, Clone)]
pub struct ModuleReferentiel {
    pub code: String,
    pub implementee: bool,
    pub libelle_cle: String,
    pub ordre: i16,
}

/// Une capacité du référentiel.
#[derive(Debug, Clone)]
pub struct CapaciteReferentiel {
    pub code: String,
    pub implementee: bool,
    pub libelle_cle: String,
    pub ordre: i16,
}

/// Un profil du référentiel, avec le motif de refus quand il n'est pas implémenté.
#[derive(Debug, Clone)]
pub struct ProfilReferentiel {
    pub code: String,
    pub implementee: bool,
    pub libelle_cle: String,
    pub motif_refus_cle: Option<String>,
    pub ordre: i16,
}

/// L'état d'un service sur un établissement : sa ligne, et s'il est actif.
#[derive(Debug, Clone, Copy, PartialEq, Eq, Structural)]
pub struct EtatService {
    pub id: u128,
    pub actif: bool,
}

/// Demande d'activation ou de désactivation d'un service.
#[derive(Debug, Clone, Copy, PartialEq, Eq, Structural)]
pub struct BasculerService {
    /// Identifiant généré par le client, utilisé à la première activation.
    pub id: u128,
    pub actif: bool,
}

/// Demande de déclaration d'une capacité.
#[derive(Debug, Clone)]
pub struct DeclarerCapacite {
    pub id: u128,
    pub capacite_code: String,
    pub profil_code: String,
}

/// Le refus du domaine des modules, avec la valeur refusée.
#[derive(Debug)]
pub enum ErreurModules {
    ModuleInconnu(String),
    ModuleNonImplemente(String),
    ModuleNonActif(String),
    CapaciteNonImplementee(String),
    CapaciteInconnue(String),
    ProfilNonImplemente { code: String, motif_cle: String },
    ProfilInconnu(String),
    DesactivationBloquee(Vec<Obstacle>),
    EtablissementInconnu,
    /// Une panne d'infrastructure — base, grand livre, contexte de tenant.
    Interne(String),
}

impl ErreurModules {
    pub open spec fn code_spec(&self) -> Seq<char> {
        match self {
            ErreurModules::ModuleInconnu(_) => "module_inconnu"@,
            ErreurModules::ModuleNonImplemente(_) => "module_non_implemente"@,
            ErreurModules::ModuleNonActif(_) => "module_non_actif"@,
            ErreurModules::CapaciteNonImplementee(_) => "capacite_non_implementee"@,
            ErreurModules::CapaciteInconnue(_) => "capacite_inconnue"@,
            ErreurModules::ProfilNonImplemente { .. } => "profil_non_implemente"@,
            ErreurModules::ProfilInconnu(_) => "profil_inconnu"@,
            ErreurModules::DesactivationBloquee(_) => "desactivation_bloquee"@,
            ErreurModules::EtablissementInconnu => "etablissement_inconnu"@,
            ErreurModules::Interne(_) => "erreur_interne"@,
        }
    }

    /// Le code stable exposé par le contrat HTTP.
    pub fn code(&self) -> (r: &'static str)
        ensures
            r@ == self.code_spec(),
    {
        match self {
            ErreurModules::ModuleInconnu(_) => "module_inconnu",
            ErreurModules::ModuleNonImplemente(_) => "module_non_implemente",
            ErreurModules::ModuleNonActif(_) => "module_non_actif",
            ErreurModules::CapaciteNonImplementee(_) => "capacite_non_implementee",
            ErreurModules::CapaciteInconnue(_) => "capacite_inconnue",
            ErreurModules::ProfilNonImplemente { .. } => "profil_non_implemente",
            ErreurModules::ProfilInconnu(_) => "profil_inconnu",
            ErreurModules::DesactivationBloquee(_) => "desactivation_bloquee",
            ErreurModules::EtablissementInconnu => "etablissement_inconnu",
            ErreurModules::Interne(_) => "erreur_interne",
        }
    }

    /// La valeur refusée — le code du module, de la capacité ou du profil.
    pub fn valeur(&self) -> (r: Option<String>)
        ensures
            match self {
                ErreurModules::ModuleInconnu(v) => r == Some(*v),
                ErreurModules::ModuleNonImplemente(v) => r == Some(*v),
                ErreurModules::ModuleNonActif(v) => r == Some(*v),
                ErreurModules::CapaciteNonImplementee(v) => r == Some(*v),
                ErreurModules::CapaciteInconnue(v) => r == Some(*v),
                ErreurModules::ProfilInconnu(v) => r == Some(*v),
                ErreurModules::ProfilNonImplemente { code, .. } => r == Some(*code),
                _ => r is None,
            },
    {
        match self {
            ErreurModules::ModuleInconnu(v) => Some(v.clone()),
            ErreurModules::ModuleNonImplemente(v) => Some(v.clone()),
            ErreurModules::ModuleNonActif(v) => Some(v.clone()),
            ErreurModules::CapaciteNonImplementee(v) => Some(v.clone()),
            ErreurModules::CapaciteInconnue(v) => Some(v.clone()),
            ErreurModules::ProfilInconnu(v) => Some(v.clone()),
            ErreurModules::ProfilNonImplemente { code, .. } => Some(code.clone()),
            _ => None,
        }
    }

    /// La clé du motif de refus d'un profil non implémenté.
    pub fn motif_cle(&self) -> (r: Option<&str>)
        ensures
            match self {
                ErreurModules::ProfilNonImplemente { motif_cle, .. } => r matches Some(m) && m@
                    == motif_cle@,
                _ => r is None,
            },
    {
        match self {
            ErreurModules::ProfilNonImplemente { motif_cle, .. } => Some(motif_cle.as_str()),
            _ => None,
        }
    }

    /// Les obstacles qui bloquent une désactivation ; aucun pour les autres refus.
    pub fn obstacles(&self) -> (r: &[Obstacle])
        ensures
            match self {
                ErreurModules::DesactivationBloquee(o) => r@ == o@,
                _ => r@.len() == 0,
            },
    {
        match self {
            ErreurModules::DesactivationBloquee(o) => o.as_slice(),
            _ => &[],
        }
    }
}

// =================================================================================================
//  Activer, désactiver, réactiver
// =================================================================================================

/// Le module est-il connu du référentiel, et implémenté ? « Inconnu » se corrige en changeant de
/// valeur, « non implémenté » en attendant : les deux refus sont distincts.
pub fn verifier_module(module_code: &str, module: &Option<ModuleReferentiel>) -> (r: Result<
    (),
    ErreurModules,
>)
    ensures
        match module {
            None => r matches Err(ErreurModules::ModuleInconnu(v)) && v@ == module_code@,
            Some(m) => if m.implementee {
                r is Ok
            } else {
                r matches Err(ErreurModules::ModuleNonImplemente(v)) && v@ == module_code@
            },
        },
{
    match module {
        None => Err(ErreurModules::ModuleInconnu(module_code.to_owned())),
        Some(m) => if m.implementee {
            Ok(())
        } else {
            Err(ErreurModules::ModuleNonImplemente(module_code.to_owned()))
        },
    }
}

/// L'établissement visé existe-t-il dans le tenant courant ?
pub fn verifier_etablissement(existe: bool) -> (r: Result<(), ErreurModules>)
    ensures
        existe ==> r is Ok,
        !existe ==> r matches Err(ErreurModules::EtablissementInconnu),
{
    if existe {
        Ok(())
    } else {
        Err(ErreurModules::EtablissementInconnu)
    }
}

/// Ce qu'une bascule fait, selon la demande et l'état du service.
#[derive(Debug, Clone, Copy, PartialEq, Eq, Structural)]
pub enum DecisionBascule {
    /// Désactiver un service jamais activé : rien à faire, et pas une erreur — le résultat
    /// demandé, « ce service n'est pas rendu », est déjà vrai. Aucune écriture, aucun événement.
    RienAFaire,
    /// Désactiver ce service, s'il n'a aucun obstacle.
    Desactiver { service_id: u128 },
    /// Première activation : une ligne neuve.
    Activer,
    /// Réactivation : la même ligne, jamais une seconde — ce qui restitue capacités et
    /// surcharges sans les avoir touchées.
    Reactiver { service_id: u128 },
}

/// Décide de la bascule d'un service.
pub fn decider_bascule(actif: bool, etat: Option<EtatService>) -> (r: DecisionBascule)
    ensures
        !actif && etat is None ==> r == DecisionBascule::RienAFaire,
        !actif && etat is Some ==> r == (DecisionBascule::Desactiver { service_id: etat->0.id }),
        actif && etat is None ==> r == DecisionBascule::Activer,
        actif && etat is Some ==> r == (DecisionBascule::Reactiver { service_id: etat->0.id }),
{
    match (actif, etat) {
        (false, None) => DecisionBascule::RienAFaire,
        (false, Some(e)) => DecisionBascule::Desactiver { service_id: e.id },
        (true, None) => DecisionBascule::Activer,
        (true, Some(e)) => DecisionBascule::Reactiver { service_id: e.id },
    }
}

/// Une désactivation n'est permise que sans obstacle ; sinon elle est refusée en les nommant tous.
pub fn verifier_obstacles(obstacles: Vec<Obstacle>) -> (r: Result<(), ErreurModules>)
    ensures
        obstacles@.len() == 0 ==> r is Ok,
        obstacles@.len() > 0 ==> r == Err::<(), ErreurModules>(
            ErreurModules::DesactivationBloquee(obstacles),
        ),
{
    if obstacles.len() == 0 {
        Ok(())
    } else {
        Err(ErreurModules::DesactivationBloquee(obstacles))
    }
}

/// Le résultat d'une bascule : l'issue, s'il y a eu transition d'état, et le service concerné.
#[derive(Debug, Clone, Copy, PartialEq, Eq, Structural)]
pub struct IssueBascule {
    pub issue: Issue,
    pub transition: bool,
    pub service_id: u128,
}

/// Le type d'événement d'une désactivation.
pub const TYPE_DESACTIVE: &'static str = "etablissement_module.desactive";

/// Le type d'événement d'une activation, première ou non.
pub const TYPE_ACTIVE: &'static str = "etablissement_module.active";

/// Conclut une bascule écrite : l'issue rendue, et l'événement à émettre s'il y en a un. Une
/// bascule sans transition — déjà dans l'état demandé — n'émet rien ; une première activation en
/// émet toujours un.
pub fn conclure_bascule(decision: DecisionBascule, transition: bool, service_id: u128) -> (r: (
    IssueBascule,
    Option<&'static str>,
))
    ensures
        decision == DecisionBascule::Activer ==> r.0 == (IssueBascule {
            issue: Issue::Creee,
            transition: true,
            service_id,
        }) && (r.1 matches Some(t) && t@ == TYPE_ACTIVE@),
        decision matches DecisionBascule::Desactiver { service_id: id } ==> r.0 == (IssueBascule {
            issue: Issue::DejaPresente,
            transition,
            service_id: id,
        }) && (transition ==> (r.1 matches Some(t) && t@ == TYPE_DESACTIVE@)) && (!transition
            ==> r.1 is None),
        decision matches DecisionBascule::Reactiver { service_id: id } ==> r.0 == (IssueBascule {
            issue: Issue::DejaPresente,
            transition,
            service_id: id,
        }) && (transition ==> (r.1 matches Some(t) && t@ == TYPE_ACTIVE@)) && (!transition ==> r.1
            is None),
        decision == DecisionBascule::RienAFaire ==> r.0 == (IssueBascule {
            issue: Issue::DejaPresente,
            transition: false,
            service_id,
        }) && r.1 is None,
{
    match decision {
        DecisionBascule::Activer => (
            IssueBascule { issue: Issue::Creee, transition: true, service_id },
            Some(TYPE_ACTIVE),
        ),
        DecisionBascule::Desactiver { service_id: id } => (
            IssueBascule { issue: Issue::DejaPresente, transition, service_id: id },
            if transition {
                Some(TYPE_DESACTIVE)
            } else {
                None
            },
        ),
        DecisionBascule::Reactiver { service_id: id } => (
            IssueBascule { issue: Issue::DejaPresente, transition, service_id: id },
            if transition {
                Some(TYPE_ACTIVE)
            } else {
                None
            },
        ),
        DecisionBascule::RienAFaire => (
            IssueBascule { issue: Issue::DejaPresente, transition: false, service_id },
            None,
        ),
    }
}

// =================================================================================================
//  Déclarer une capacité
// =================================================================================================

/// Le service visé est-il actif ? Rend sa ligne ; un service absent ou désactivé est refusé comme
/// non actif.
pub fn service_actif(module_code: &str, etat: Option<EtatService>) -> (r: Result<u128, ErreurModules>)
    ensures
        match etat {
            Some(e) => if e.actif {
                r == Ok::<u128, ErreurModules>(e.id)
            } else {
                r matches Err(ErreurModules::ModuleNonActif(v)) && v@ == module_code@
            },
            None => r matches Err(ErreurModules::ModuleNonActif(v)) && v@ == module_code@,
        },
{
    match etat {
        Some(e) => if e.actif {
            Ok(e.id)
        } else {
            Err(ErreurModules::ModuleNonActif(module_code.to_owned()))
        },
        None => Err(ErreurModules::ModuleNonActif(module_code.to_owned())),
    }
}

/// La capacité est-elle connue du référentiel, et implémentée ?
pub fn verifier_capacite(capacite_code: &str, capacite: &Option<CapaciteReferentiel>) -> (r: Result<
    (),
    ErreurModules,
>)
    ensures
        match capacite {
            None => r matches Err(ErreurModules::CapaciteInconnue(v)) && v@ == capacite_code@,
            Some(c) => if c.implementee {
                r is Ok
            } else {
                r matches Err(ErreurModules::CapaciteNonImplementee(v)) && v@ == capacite_code@
            },
        },
{
    match capacite {
        None => Err(ErreurModules::CapaciteInconnue(capacite_code.to_owned())),
        Some(c) => if c.implementee {
            Ok(())
        } else {
            Err(ErreurModules::CapaciteNonImplementee(capacite_code.to_owned()))
        },
    }
}

/// Le profil est-il connu du référentiel, et implémenté ? Le motif d'un refus vient du
/// référentiel lui-même — vide quand il n'en donne pas.
pub fn verifier_profil(profil_code: &str, profil: &Option<ProfilReferentiel>) -> (r: Result<
    (),
    ErreurModules,
>)
    ensures
        match profil {
            None => r matches Err(ErreurModules::ProfilInconnu(v)) && v@ == profil_code@,
            Some(p) => if p.implementee {
                r is Ok
            } else {
                r matches Err(ErreurModules::ProfilNonImplemente { code, motif_cle }) && code@
                    == profil_code@ && motif_cle@ == match p.motif_refus_cle {
                    Some(m) => m@,
                    None => Seq::<char>::empty(),
                }
            },
        },
{
    match profil {
        None => Err(ErreurModules::ProfilInconnu(profil_code.to_owned())),
        Some(p) => if p.implementee {
            Ok(())
        } else {
            let motif_cle = match &p.motif_refus_cle {
                Some(m) => m.clone(),
                None => String::new(),
            };
            Err(ErreurModules::ProfilNonImplemente { code: profil_code.to_owned(), motif_cle })
        },
    }
}

} // verus!
