//! Le socle des établissements : identité, services actifs, configuration par portée, identité
//! visuelle, points de vente et notes internes.
//!
//! L'entité centrale est l'**établissement**, pas l'hôtel : un maquis seul, un pressing seul et une
//! résidence meublée seule sont des établissements valides.

use vstd::prelude::*;

pub mod branding;
pub mod configuration;
pub mod etablissement;
pub mod modules;
pub mod note;
pub mod points_de_vente;

verus! {

/// Résultat d'une écriture idempotente : la distinction que le contrat HTTP rend en 201 ou 200.
#[derive(Debug, Clone, Copy, PartialEq, Eq, Structural)]
pub enum Issue {
    /// La ligne n'existait pas.
    Creee,
    /// La ligne existait déjà, à l'identique : rejeu, et aucun nouvel événement.
    DejaPresente,
}

// =================================================================================================
//  Le classement fiscal
// =================================================================================================

/// Le classement d'un établissement — le vocabulaire fiscal officiel, qui décide du barème de la
/// taxe de nuitée.
#[derive(Debug, Clone, Copy, PartialEq, Eq, Structural)]
pub enum Classement {
    /// Classé, avec un nombre d'étoiles strictement positif.
    Etoiles(u8),
    NonClasse,
    ResidenceMeublee,
}

impl Classement {
    pub open spec fn code_spec(self) -> Seq<char> {
        match self {
            Classement::Etoiles(_) => "ETOILES"@,
            Classement::NonClasse => "NON_CLASSE"@,
            Classement::ResidenceMeublee => "RESIDENCE_MEUBLEE"@,
        }
    }

    /// Le code stocké en base et rendu par l'API.
    pub fn code(self) -> (r: &'static str)
        ensures
            r@ == self.code_spec(),
    {
        match self {
            Classement::Etoiles(_) => "ETOILES",
            Classement::NonClasse => "NON_CLASSE",
            Classement::ResidenceMeublee => "RESIDENCE_MEUBLEE",
        }
    }

    pub open spec fn etoiles_spec(self) -> Option<u8> {
        match self {
            Classement::Etoiles(n) => Some(n),
            _ => None,
        }
    }

    /// Le nombre d'étoiles — renseigné si et seulement si le classement est par étoiles.
    pub fn etoiles(self) -> (r: Option<u8>)
        ensures
            r == self.etoiles_spec(),
    {
        match self {
            Classement::Etoiles(n) => Some(n),
            _ => None,
        }
    }

    /// Le classement est-il de ceux que la base accepte ? Un classement par étoiles en compte au
    /// moins une.
    pub open spec fn coherent(self) -> bool {
        match self {
            Classement::Etoiles(n) => n > 0,
            _ => true,
        }
    }

    /// Reconstruit le classement depuis le couple de colonnes `(classement, etoiles)` ; `None`
    /// quand le couple est incohérent.
    pub fn depuis_colonnes(code: &str, etoiles: Option<i16>) -> (r: Option<Classement>)
        ensures
            r == classement_de_colonnes(code@, etoiles),
    {
        if crate::texte::egal(code, "ETOILES") {
            match etoiles {
                Some(n) => if 1 <= n && n <= 255 {
                    Some(Classement::Etoiles(n as u8))
                } else {
                    None
                },
                None => None,
            }
        } else if crate::texte::egal(code, "NON_CLASSE") {
            match etoiles {
                None => Some(Classement::NonClasse),
                Some(_) => None,
            }
        } else if crate::texte::egal(code, "RESIDENCE_MEUBLEE") {
            match etoiles {
                None => Some(Classement::ResidenceMeublee),
                Some(_) => None,
            }
        } else {
            None
        }
    }
}

/// Le classement que décrit un couple de colonnes, s'il est cohérent.
pub open spec fn classement_de_colonnes(code: Seq<char>, etoiles: Option<i16>) -> Option<
    Classement,
> {
    if code == "ETOILES"@ {
        match etoiles {
            Some(n) => if 1 <= n <= 255 {
                Some(Classement::Etoiles(n as u8))
            } else {
                None
            },
            None => None,
        }
    } else if code == "NON_CLASSE"@ {
        if etoiles is None {
            Some(Classement::NonClasse)
        } else {
            None
        }
    } else if code == "RESIDENCE_MEUBLEE"@ {
        if etoiles is None {
            Some(Classement::ResidenceMeublee)
        } else {
            None
        }
    } else {
        None
    }
}

/// Tout classement cohérent se relit depuis les colonnes qu'il écrit.
pub proof fn loi_classement_aller_retour(c: Classement)
    requires
        c.coherent(),
    ensures
        classement_de_colonnes(
            c.code_spec(),
            match c.etoiles_spec() {
                Some(n) => Some(n as i16),
                None => None,
            },
        ) == Some(c),
{
    reveal_strlit("ETOILES");
    reveal_strlit("NON_CLASSE");
    reveal_strlit("RESIDENCE_MEUBLEE");
    assert("ETOILES"@.len() == 7);
    assert("NON_CLASSE"@.len() == 10);
    assert("RESIDENCE_MEUBLEE"@.len() == 17);
}

// =================================================================================================
//  La portée d'un paramètre
// =================================================================================================

/// Le niveau auquel un paramètre est posé, du plus haut au plus bas. Un niveau plus bas surcharge
/// un niveau plus haut.
#[derive(Debug, Clone, Copy, PartialEq, Eq, PartialOrd, Ord, Hash, Structural)]
pub enum Portee {
    Tenant,
    Etablissement,
    Module,
    PointDeVente,
}

impl Portee {
    pub open spec fn rang_spec(self) -> u8 {
        match self {
            Portee::Tenant => 0,
            Portee::Etablissement => 1,
            Portee::Module => 2,
            Portee::PointDeVente => 3,
        }
    }

    /// Le rang : 0 pour le tenant, 3 pour le point de vente. Un rang plus grand est plus bas.
    pub fn rang(self) -> (r: u8)
        ensures
            r == self.rang_spec(),
    {
        match self {
            Portee::Tenant => 0,
            Portee::Etablissement => 1,
            Portee::Module => 2,
            Portee::PointDeVente => 3,
        }
    }

    pub open spec fn code_spec(self) -> Seq<char> {
        match self {
            Portee::Tenant => "TENANT"@,
            Portee::Etablissement => "ETABLISSEMENT"@,
            Portee::Module => "MODULE"@,
            Portee::PointDeVente => "POINT_DE_VENTE"@,
        }
    }

    /// Le code stocké au catalogue.
    pub fn code(self) -> (r: &'static str)
        ensures
            r@ == self.code_spec(),
    {
        match self {
            Portee::Tenant => "TENANT",
            Portee::Etablissement => "ETABLISSEMENT",
            Portee::Module => "MODULE",
            Portee::PointDeVente => "POINT_DE_VENTE",
        }
    }
}

/// La portée d'un code du catalogue ; un code inconnu vaut le tenant, la racine toujours permise.
pub open spec fn portee_de_code(code: Seq<char>) -> Portee {
    if code == "ETABLISSEMENT"@ {
        Portee::Etablissement
    } else if code == "MODULE"@ {
        Portee::Module
    } else if code == "POINT_DE_VENTE"@ {
        Portee::PointDeVente
    } else {
        Portee::Tenant
    }
}

/// La portée d'un rang ; un rang inconnu vaut le tenant.
pub open spec fn portee_de_rang(rang: i32) -> Portee {
    if rang == 3 {
        Portee::PointDeVente
    } else if rang == 2 {
        Portee::Module
    } else if rang == 1 {
        Portee::Etablissement
    } else {
        Portee::Tenant
    }
}

/// Relit une portée depuis le code du catalogue.
pub fn portee_depuis_code(code: &str) -> (r: Portee)
    ensures
        r == portee_de_code(code@),
{
    if crate::texte::egal(code, "ETABLISSEMENT") {
        Portee::Etablissement
    } else if crate::texte::egal(code, "MODULE") {
        Portee::Module
    } else if crate::texte::egal(code, "POINT_DE_VENTE") {
        Portee::PointDeVente
    } else {
        Portee::Tenant
    }
}

/// Relit une portée depuis le rang que la résolution en base rend.
pub fn portee_depuis_rang(rang: i32) -> (r: Portee)
    ensures
        r == portee_de_rang(rang),
{
    if rang == 3 {
        Portee::PointDeVente
    } else if rang == 2 {
        Portee::Module
    } else if rang == 1 {
        Portee::Etablissement
    } else {
        Portee::Tenant
    }
}

/// Chaque portée se relit depuis son code et depuis son rang, et deux portées distinctes ont deux
/// rangs distincts.
pub proof fn loi_portee_aller_retour(p: Portee, q: Portee)
    ensures
        portee_de_code(p.code_spec()) == p,
        portee_de_rang(p.rang_spec() as i32) == p,
        p != q ==> p.rang_spec() != q.rang_spec(),
{
    reveal_strlit("TENANT");
    reveal_strlit("ETABLISSEMENT");
    reveal_strlit("MODULE");
    reveal_strlit("POINT_DE_VENTE");
    assert("TENANT"@.len() == 6);
    assert("ETABLISSEMENT"@.len() == 13);
    assert("MODULE"@.len() == 6);
    assert("POINT_DE_VENTE"@.len() == 14);
    assert("TENANT"@[0] == 'T' && "MODULE"@[0] == 'M');
}

// =================================================================================================
//  Ce que les registres rendent
// =================================================================================================

/// Une capacité déclarée pour un service, avec son profil.
#[derive(Debug, Clone, PartialEq, Eq)]
pub struct CapaciteDeclaree {
    pub capacite_code: String,
    pub profil_code: String,
}

/// Une raison de refuser la désactivation d'un service : une clé de traduction et un nombre,
/// séparés pour que la phrase se compose dans la langue de l'utilisateur.
#[derive(Debug, Clone, PartialEq, Eq)]
pub struct Obstacle {
    pub module_code: String,
    pub motif_cle: String,
    pub nombre: u32,
}

} // verus!
