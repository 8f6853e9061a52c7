# kaya

Les règles métier d'un logiciel de gestion d'établissements d'hébergement et de restauration,
écrites en Rust et prouvées par Verus.

## Organisation

- `src/` — la bibliothèque vérifiée :
  - `etablissements/` : identité d'un établissement et plan de sa modification, services actifs
    et décision de bascule, configuration par portée, identité visuelle (fusion par champ et
    aperçu), points de vente et leurs tables, notes internes ;
  - `hebergement/` : référentiel de l'offre (familles de formule, heures murales, composition des
    formules et des types de chambre), occupation (contrôles d'une attribution, traduction de la
    violation d'exclusion), barème du passage et décision de tarification, séjour (identifiants
    dérivés, tarif prévu, accompagnants, total de la note, vues habillées du nom des clients),
    nuits calendaires ;
  - `synchronisation/` : dérive d'horloge des terminaux, consommateurs idempotents, décisions du
    worker de publication ;
  - `temps.rs`, `texte.rs` : instants, nettoyage et écriture du texte.
- `tests/` — les tests, contre la bibliothèque compilée.
- `app/` — la base PostgreSQL, le grand livre des événements et les services asynchrones qui
  appellent les décisions de la bibliothèque.

Chaque fonction publique de `src/` porte un contrat `requires` / `ensures` ; les propriétés qui
relient plusieurs fonctions sont des fonctions de preuve publiques dont le nom commence par
`loi_`.
