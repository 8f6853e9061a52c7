//! La verticale hébergement : référentiel de l'offre, occupation, tarification, séjour.
//!
//! Deux clients ne peuvent jamais recevoir la même unité au même moment : la garantie est la
//! contrainte d'exclusion de la base, que ce crate **traduit** sans la remplacer.

use vstd::prelude::*;

pub mod erreurs;
pub mod occupation;
pub mod referentiel;
pub mod sejour;
pub mod tarification;
pub mod taxe;

verus! {

/// Nom du module d'activité que cette verticale sert.
pub const MODULE_HEBERGEMENT: &'static str = "HEBERGEMENT";

/// Résultat d'une écriture idempotente.
#[derive(Debug, Clone, Copy, PartialEq, Eq, Structural)]
pub enum Issue {
    /// La ligne vient d'être créée — l'événement outbox est émis.
    Creee,
    /// La ligne existait déjà : rejeu d'un terminal qui vide sa file — aucun événement.
    DejaPresente,
}

} // verus!
