//! La configuration par portée : un paramètre du catalogue s'écrit au tenant, à l'établissement,
//! au module ou au point de vente, jamais plus bas que ce que le catalogue autorise, et avec une
//! valeur du type qu'il déclare.

use vstd::prelude::*;

use crate::etablissements::{portee_de_code, portee_depuis_code, Portee};

verus! {

/// Une entrée du catalogue des paramètres.
#[derive(Debug, Clone)]
pub struct EntreeCatalogue {
    pub cle: String,
    pub type_valeur: String,
    /// La portée la plus basse à laquelle le paramètre peut être posé.
    pub portee_la_plus_basse: String,
    pub story: String,
    pub libelle_cle: String,
    pub description_cle: String,
}

/// La forme d'une valeur JSON, telle que le contrôle de type la lit.
#[derive(Debug, Clone, Copy, PartialEq, Eq, Structural)]
pub enum GenreValeur {
    /// Un nombre entier représentable sur 64 bits signés.
    Entier,
    /// Tout autre nombre : un flottant, même de valeur entière, ou un entier au-delà de `i64`.
    AutreNombre,
    Texte,
    Booleen,
    Objet,
    Tableau,
    Nul,
}

/// La valeur est-elle du type que le catalogue déclare ?
pub open spec fn compatible(type_valeur: Seq<char>, genre: GenreValeur) -> bool {
    if type_valeur == "ENTIER"@ || type_valeur == "DUREE_MINUTES"@ || type_valeur
        == "MONTANT_MINEUR"@ {
        genre == GenreValeur::Entier
    } else if type_valeur == "TEXTE"@ || type_valeur == "HEURE_LOCALE"@ {
        genre == GenreValeur::Texte
    } else if type_valeur == "BOOLEEN"@ {
        genre == GenreValeur::Booleen
    } else if type_valeur == "BAREME"@ {
        genre == GenreValeur::Objet || genre == GenreValeur::Tableau
    } else {
        false
    }
}

/// La valeur est-elle du type déclaré ? Un entier est strict : `1500.0` n'en est pas un. Un
/// barème est un objet ou un tableau. Un type inconnu refuse tout, plutôt que de tout laisser
/// passer.
pub fn valeur_compatible(type_valeur: &str, genre: GenreValeur) -> (r: bool)
    ensures
        r == compatible(type_valeur@, genre),
{
    if crate::texte::egal(type_valeur, "ENTIER") || crate::texte::egal(type_valeur, "DUREE_MINUTES")
        || crate::texte::egal(type_valeur, "MONTANT_MINEUR") {
        genre == GenreValeur::Entier
    } else if crate::texte::egal(type_valeur, "TEXTE") || crate::texte::egal(
        type_valeur,
        "HEURE_LOCALE",
    ) {
        genre == GenreValeur::Texte
    } else if crate::texte::egal(type_valeur, "BOOLEEN") {
        genre == GenreValeur::Booleen
    } else if crate::texte::egal(type_valeur, "BAREME") {
        genre == GenreValeur::Objet || genre == GenreValeur::Tableau
    } else {
        false
    }
}

/// Le refus d'une écriture de paramètre, avec la valeur refusée.
#[derive(Debug)]
pub enum ErreurParametre {
    CleHorsCatalogue(String),
    PorteeInterdite { cle: String, portee: String, plus_basse: String },
    TypeIncompatible { cle: String, type_attendu: String, recu: String },
    PorteeIdManquant(String),
    NiveauInconnu,
    /// Une panne d'infrastructure — base, grand livre, contexte de tenant.
    Interne(String),
}

impl ErreurParametre {
    pub open spec fn code_spec(&self) -> Seq<char> {
        match self {
            ErreurParametre::CleHorsCatalogue(_) => "cle_hors_catalogue"@,
            ErreurParametre::PorteeInterdite { .. } => "portee_interdite"@,
            ErreurParametre::TypeIncompatible { .. } => "type_incompatible"@,
            ErreurParametre::PorteeIdManquant(_) => "portee_id_manquant"@,
            ErreurParametre::NiveauInconnu => "niveau_inconnu"@,
            ErreurParametre::Interne(_) => "erreur_interne"@,
        }
    }

    /// Le code stable exposé par le contrat HTTP.
    pub fn code(&self) -> (r: &'static str)
        ensures
            r@ == self.code_spec(),
    {
        match self {
            ErreurParametre::CleHorsCatalogue(_) => "cle_hors_catalogue",
            ErreurParametre::PorteeInterdite { .. } => "portee_interdite",
            ErreurParametre::TypeIncompatible { .. } => "type_incompatible",
            ErreurParametre::PorteeIdManquant(_) => "portee_id_manquant",
            ErreurParametre::NiveauInconnu => "niveau_inconnu",
            ErreurParametre::Interne(_) => "erreur_interne",
        }
    }

    /// La valeur refusée : la clé, la portée demandée, ou la valeur reçue.
    pub fn valeur(&self) -> (r: Option<String>)
        ensures
            match self {
                ErreurParametre::CleHorsCatalogue(v) => r == Some(*v),
                ErreurParametre::PorteeIdManquant(v) => r == Some(*v),
                ErreurParametre::PorteeInterdite { portee, .. } => r == Some(*portee),
                ErreurParametre::TypeIncompatible { recu, .. } => r == Some(*recu),
                _ => r is None,
            },
    {
        match self {
            ErreurParametre::CleHorsCatalogue(v) => Some(v.clone()),
            ErreurParametre::PorteeIdManquant(v) => Some(v.clone()),
            ErreurParametre::PorteeInterdite { portee, .. } => Some(portee.clone()),
            ErreurParametre::TypeIncompatible { recu, .. } => Some(recu.clone()),
            _ => None,
        }
    }
}

/// La colonne où l'identifiant de niveau est rangé : c'est là que la portée devient dérivée.
#[derive(Debug, Clone, Copy, PartialEq, Eq, Structural)]
pub struct Repartition {
    pub etablissement_id: Option<u128>,
    pub module_id: Option<u128>,
    pub point_de_vente_id: Option<u128>,
}

/// Une demande d'écriture de paramètre : la clé, la forme et le texte de la valeur, la portée et
/// l'identifiant du niveau visé.
#[derive(Debug, Clone)]
pub struct EcrireParametre {
    pub id: u128,
    pub cle: String,
    pub genre: GenreValeur,
    /// Le texte JSON de la valeur, tel que le refus `type_incompatible` le nomme.
    pub valeur_texte: String,
    pub portee: Portee,
    pub portee_id: Option<u128>,
}

/// La répartition attendue de l'identifiant de niveau selon la portée, s'il en faut un et qu'il
/// est fourni.
pub open spec fn repartition_de(portee: Portee, id: u128) -> Repartition {
    match portee {
        Portee::Tenant => Repartition {
            etablissement_id: None,
            module_id: None,
            point_de_vente_id: None,
        },
        Portee::Etablissement => Repartition {
            etablissement_id: Some(id),
            module_id: None,
            point_de_vente_id: None,
        },
        Portee::Module => Repartition {
            etablissement_id: None,
            module_id: Some(id),
            point_de_vente_id: None,
        },
        Portee::PointDeVente => Repartition {
            etablissement_id: None,
            module_id: None,
            point_de_vente_id: Some(id),
        },
    }
}

/// Valide une écriture de paramètre contre son entrée du catalogue, dans l'ordre : la clé est au
/// catalogue, la portée n'est pas plus basse que permis (le tenant l'est toujours), la valeur est
/// du type déclaré, et un identifiant de niveau est fourni quand la portée en exige un.
///
/// L'existence du niveau visé dans le tenant se vérifie ensuite en base.
pub fn valider_ecriture(entree: &Option<EntreeCatalogue>, demande: &EcrireParametre) -> (r: Result<
    Repartition,
    ErreurParametre,
>)
    ensures
        match entree {
            None => r matches Err(ErreurParametre::CleHorsCatalogue(v)) && v@ == demande.cle@,
            Some(e) => if demande.portee.rang_spec() > portee_de_code(
                e.portee_la_plus_basse@,
            ).rang_spec() {
                r matches Err(ErreurParametre::PorteeInterdite { cle, portee, plus_basse }) && cle@
                    == demande.cle@ && portee@ == demande.portee.code_spec() && plus_basse@
                    == e.portee_la_plus_basse@
            } else if !compatible(e.type_valeur@, demande.genre) {
                r matches Err(ErreurParametre::TypeIncompatible { cle, type_attendu, recu })
                    && cle@ == demande.cle@ && type_attendu@ == e.type_valeur@ && recu@
                    == demande.valeur_texte@
            } else if demande.portee != Portee::Tenant && demande.portee_id is None {
                r matches Err(ErreurParametre::PorteeIdManquant(v)) && v@
                    == demande.portee.code_spec()
            } else {
                r == Ok::<Repartition, ErreurParametre>(
                    repartition_de(
                        demande.portee,
                        match demande.portee_id {
                            Some(id) => id,
                            None => 0,
                        },
                    ),
                )
            },
        },
{
    let e = match entree {
        Some(e) => e,
        None => {
            return Err(ErreurParametre::CleHorsCatalogue(demande.cle.clone()));
        },
    };
    let plus_basse = portee_depuis_code(e.portee_la_plus_basse.as_str());
    if demande.portee.rang() > plus_basse.rang() {
        return Err(
            ErreurParametre::PorteeInterdite {
                cle: demande.cle.clone(),
                portee: demande.portee.code().to_owned(),
                plus_basse: e.portee_la_plus_basse.clone(),
            },
        );
    }
    if !valeur_compatible(e.type_valeur.as_str(), demande.genre) {
        return Err(
            ErreurParametre::TypeIncompatible {
                cle: demande.cle.clone(),
                type_attendu: e.type_valeur.clone(),
                recu: demande.valeur_texte.clone(),
            },
        );
    }
    match demande.portee {
        Portee::Tenant => Ok(
            Repartition { etablissement_id: None, module_id: None, point_de_vente_id: None },
        ),
        _ => match demande.portee_id {
            None => Err(ErreurParametre::PorteeIdManquant(demande.portee.code().to_owned())),
            Some(id) => Ok(
                match demande.portee {
                    Portee::Etablissement => Repartition {
                        etablissement_id: Some(id),
                        module_id: None,
                        point_de_vente_id: None,
                    },
                    Portee::Module => Repartition {
                        etablissement_id: None,
                        module_id: Some(id),
                        point_de_vente_id: None,
                    },
                    _ => Repartition {
                        etablissement_id: None,
                        module_id: None,
                        point_de_vente_id: Some(id),
                    },
                },
            ),
        },
    }
}

/// Le niveau visé appartient-il au tenant courant ?
pub fn verifier_niveau(portee: Portee, niveau_du_tenant: bool) -> (r: Result<(), ErreurParametre>)
    ensures
        portee == Portee::Tenant || niveau_du_tenant ==> r is Ok,
        portee != Portee::Tenant && !niveau_du_tenant ==> r matches Err(
            ErreurParametre::NiveauInconnu,
        ),
{
    if portee == Portee::Tenant || niveau_du_tenant {
        Ok(())
    } else {
        Err(ErreurParametre::NiveauInconnu)
    }
}

/// Une portée au tenant est toujours permise, quel que soit le paramètre.
pub proof fn loi_tenant_toujours_permis(plus_basse: Seq<char>)
    ensures
        Portee::Tenant.rang_spec() <= portee_de_code(plus_basse).rang_spec(),
{
}

/// Une écriture n'émet d'événement que si elle change la valeur : il n'y en avait pas, ou
/// l'ancienne diffère de la nouvelle. Les valeurs sont comparées sous leur forme JSON
/// canonique.
pub fn ecriture_change(ancienne: Option<&str>, nouvelle: &str) -> (r: bool)
    ensures
        r == match ancienne {
            None => true,
            Some(a) => a@ != nouvelle@,
        },
{
    match ancienne {
        None => true,
        Some(a) => !crate::texte::egal(a, nouvelle),
    }
}

} // verus!
