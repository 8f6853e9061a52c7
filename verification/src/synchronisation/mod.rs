//! Le grand livre d'événements : la dérive d'horloge constatée, les consommateurs idempotents,
//! la clé de séquence de l'outbox et ce que publie un tour du worker.

pub mod consommateurs;
pub mod derive;
pub mod outbox;
