//! Les notes internes d'un établissement.

use vstd::prelude::*;

use crate::texte::{rogne, rogner_borne};

verus! {

/// Longueur maximale du texte d'une note, en caractères — alignée sur la contrainte de la base.
pub const TEXTE_MAX: usize = 2000;

/// Le refus du domaine des notes.
#[derive(Debug)]
pub enum ErreurNote {
    /// Texte vide ou trop long après nettoyage.
    TexteInvalide,
    EtablissementInconnu,
    /// Une panne d'infrastructure — base, grand livre, contexte de tenant.
    Interne(String),
}

/// Nettoie le texte d'une note : sans ses espaces de bord, il compte de 1 à `TEXTE_MAX`
/// caractères.
pub fn nettoyer_texte(texte: &str) -> (r: Result<String, ErreurNote>)
    ensures
        (0 < rogne(texte@).len() <= TEXTE_MAX) ==> (r matches Ok(t) && t@ == rogne(texte@)),
        !(0 < rogne(texte@).len() <= TEXTE_MAX) ==> (r matches Err(ErreurNote::TexteInvalide)),
{
    match rogner_borne(texte, TEXTE_MAX) {
        Some(t) => Ok(t),
        None => Err(ErreurNote::TexteInvalide),
    }
}

} // verus!
