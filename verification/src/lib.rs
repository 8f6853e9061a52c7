//! Règles métier d'un logiciel de gestion d'établissements d'hébergement et de restauration,
//! vérifiées par Verus.

pub mod etablissements;
pub mod hebergement;
pub mod synchronisation;
pub mod temps;
pub mod texte;
