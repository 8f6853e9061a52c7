//! **La dérive d'horloge — constatée, jamais opposée.**
//!
//! Toute durée part de l'horodatage d'autorité serveur ; l'horloge d'un terminal n'est comparée
//! que pour **signaler** un écart. La dérive n'est jamais un motif de refus : la constatation
//! rend une `Option`, pas un `Result`.
//!
//! La détection porte sur la valeur **absolue** de l'écart : une horloge en avance est aussi
//! fausse qu'une horloge en retard.

use vstd::prelude::*;
use crate::temps::{Horodatage, NANOS_PAR_SECONDE};
use crate::texte::{ecrire_uuid, uuid_texte};

verus! {

/// De quel côté l'horloge du terminal se trompe.
#[derive(Debug, Clone, Copy, PartialEq, Eq, Structural)]
pub enum SensDerive {
    /// L'horloge du terminal est en retard sur celle du serveur.
    Retard,
    /// L'horloge du terminal est en avance sur celle du serveur.
    Avance,
}

impl SensDerive {
    pub open spec fn code_spec(self) -> Seq<char> {
        match self {
            SensDerive::Retard => "retard"@,
            SensDerive::Avance => "avance"@,
        }
    }

    /// Le code écrit au contexte de l'entrée d'audit.
    pub fn code(self) -> (r: &'static str)
        ensures
            r@ == self.code_spec(),
    {
        match self {
            SensDerive::Retard => "retard",
            SensDerive::Avance => "avance",
        }
    }
}

/// Un écart constaté entre l'horloge d'un terminal et celle du serveur.
#[derive(Debug, Clone, Copy, PartialEq, Eq, Structural)]
pub struct Derive {
    /// L'écart, en secondes, toujours positif.
    pub ecart_secondes: u64,
    /// Le seuil qui a été dépassé, en secondes.
    pub seuil_secondes: u64,
    pub sens: SensDerive,
}

impl Derive {
    /// L'écart en minutes, arrondi au plus proche — ce que l'écran affiche.
    pub fn ecart_minutes(self) -> (r: u64)
        requires
            self.ecart_secondes + 30 <= u64::MAX,
        ensures
            r == (self.ecart_secondes + 30) / 60,
    {
        (self.ecart_secondes + 30) / 60
    }
}

/// Le défaut du catalogue pour le seuil de dérive, en secondes.
pub const SEUIL_DERIVE_DEFAUT_SECONDES: u64 = 300;

/// Les secondes entières de l'écart signé `autorite - client`, en valeur absolue.
pub open spec fn ecart_absolu_secondes(client: Horodatage, autorite: Horodatage) -> int {
    let e = autorite.unix_nanos - client.unix_nanos;
    if e >= 0 {
        e / (NANOS_PAR_SECONDE as int)
    } else {
        (-e) / (NANOS_PAR_SECONDE as int)
    }
}

/// La dérive constatée entre deux instants, au-delà d'un seuil en secondes.
pub open spec fn derive_constatee(client: Horodatage, autorite: Horodatage, seuil: u64) -> Option<
    Derive,
> {
    let ecart = ecart_absolu_secondes(client, autorite);
    if ecart <= seuil {
        None
    } else {
        Some(
            Derive {
                ecart_secondes: ecart as u64,
                seuil_secondes: seuil,
                sens: if autorite.unix_nanos > client.unix_nanos {
                    SensDerive::Retard
                } else {
                    SensDerive::Avance
                },
            },
        )
    }
}

/// **Constate une dérive.** Aucune entrée-sortie, aucune horloge lue : les deux instants sont
/// des paramètres.
///
/// Rend `None` quand l'écart ne dépasse pas le seuil — un seuil de cinq minutes veut dire
/// « au-delà de cinq minutes ».
pub fn constater_derive(horodatage_client: Horodatage, autorite: Horodatage, seuil_secondes: u64) -> (r:
    Option<Derive>)
    requires
        horodatage_client.valide(),
        autorite.valide(),
    ensures
        r == derive_constatee(horodatage_client, autorite, seuil_secondes),
{
    let ecart = autorite.unix_nanos - horodatage_client.unix_nanos;
    let absolu = if ecart >= 0 {
        ecart
    } else {
        -ecart
    };
    let ecart_secondes = absolu / NANOS_PAR_SECONDE;
    assert(ecart_secondes <= 1_000_000_000_000) by (nonlinear_arith)
        requires
            0 <= absolu <= 800_000_000_000_000_000_000,
            ecart_secondes == absolu / 1_000_000_000,
    ;
    if ecart_secondes <= seuil_secondes as i128 {
        return None;
    }
    let sens = if ecart > 0 {
        SensDerive::Retard
    } else {
        SensDerive::Avance
    };
    Some(Derive { ecart_secondes: ecart_secondes as u64, seuil_secondes, sens })
}

/// La dérive est symétrique : échanger les deux horloges donne le même écart, dans l'autre sens.
pub proof fn loi_derive_symetrique(a: Horodatage, b: Horodatage, seuil: u64)
    requires
        a.unix_nanos != b.unix_nanos,
    ensures
        derive_constatee(a, b, seuil) is Some <==> derive_constatee(b, a, seuil) is Some,
        derive_constatee(a, b, seuil) matches Some(d) ==> derive_constatee(b, a, seuil) matches Some(e) && e.ecart_secondes
            == d.ecart_secondes && e.sens != d.sens,
{
}

/// Qui l'écriture d'une dérive concerne — **un terminal, pas une personne**.
#[derive(Debug, Clone, Copy, PartialEq, Eq, Structural)]
pub struct OrigineDerive {
    pub tenant_id: u128,
    pub compte_id: u128,
    /// L'appareil, quand il est identifiable.
    pub appareil_id: Option<u128>,
}

/// La clé de débrayage d'une origine.
pub open spec fn cle_debrayage_spec(origine: OrigineDerive) -> Seq<char> {
    "derive:"@ + uuid_texte(origine.tenant_id) + ":"@ + uuid_texte(origine.compte_id) + ":"@
        + match origine.appareil_id {
        Some(a) => uuid_texte(a),
        None => "sans-appareil"@,
    }
}

/// La clé de débrayage d'une origine — **la forme est stable**. L'appareil absent retombe sur
/// `sans-appareil` plutôt que sur une clé plus courte.
pub fn cle_debrayage(origine: OrigineDerive) -> (r: String)
    ensures
        r@ == cle_debrayage_spec(origine),
{
    let mut cle = String::from_str("derive:");
    ecrire_uuid(&mut cle, origine.tenant_id);
    cle.append(":");
    ecrire_uuid(&mut cle, origine.compte_id);
    cle.append(":");
    match origine.appareil_id {
        Some(a) => ecrire_uuid(&mut cle, a),
        None => cle.append("sans-appareil"),
    }
    cle
}

/// Un canal de signalement qui ne signale rien — le montage sans registre des actions.
#[derive(Debug, Clone, Copy, Default)]
pub struct SignalMuet;

impl SignalMuet {
    /// Le seuil en vigueur : le défaut du catalogue.
    pub fn seuil(&self, tenant_id: u128, etablissement_id: u128) -> (r: u64)
        ensures
            r == SEUIL_DERIVE_DEFAUT_SECONDES,
    {
        SEUIL_DERIVE_DEFAUT_SECONDES
    }

    /// Ne consigne rien.
    pub fn consigner(&self, origine: OrigineDerive, derive: Derive) {
    }
}

} // verus!
