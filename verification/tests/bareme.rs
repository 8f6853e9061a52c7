use kaya::hebergement::referentiel::{ErreurReferentiel, FamilleFormule};
use kaya::hebergement::occupation::ErreurAttribution;
use kaya::hebergement::tarification::{
    calcul_tient, calculer, decider_tarification, decision_tient, rebascule, seuil_bascule_depuis, Calcul, ErreurBareme, Palier,
    Rebascule,
};
use kaya::temps::Horodatage;

fn deloria() -> Vec<Palier> {
    vec![
        Palier { duree_minutes: 60, prix_mineur: 1_500 },
        Palier { duree_minutes: 120, prix_mineur: 2_800 },
        Palier { duree_minutes: 180, prix_mineur: 4_000 },
        Palier { duree_minutes: 240, prix_mineur: 5_000 },
    ]
}

fn calculer_deloria(minutes: i64) -> Calcul {
    calculer(minutes, &deloria(), Some(1_200), Some(480), Some(12_500))
        .expect("le barème de Deloria est exploitable")
}

#[test]
fn deux_heures_valent_2800() {
    let calcul = calculer_deloria(120);
    assert_eq!(calcul.montant_du_mineur, 2_800);
    assert_eq!(calcul.palier_retenu_minutes, Some(120));
    assert_eq!(calcul.heures_supplementaires, 0);
}

#[test]
fn quatre_heures_dix_valent_6200() {
    let calcul = calculer_deloria(250);
    assert_eq!(calcul.montant_du_mineur, 6_200);
    assert_eq!(calcul.palier_retenu_minutes, Some(240));
    assert_eq!(calcul.heures_supplementaires, 1);
}

#[test]
fn vingt_minutes_valent_le_premier_palier() {
    let calcul = calculer_deloria(20);
    assert_eq!(calcul.montant_du_mineur, 1_500);
    assert_eq!(calcul.palier_retenu_minutes, Some(60));
}

#[test]
fn huit_heures_basculent_en_nuitee() {
    let calcul = calculer_deloria(480);
    assert_eq!(calcul.formule_appliquee, FamilleFormule::Nuitee);
    assert_eq!(calcul.montant_du_mineur, 12_500);
    assert_eq!(
        calcul.palier_retenu_minutes, None,
        "une bascule n'a pas de palier : ce n'est pas un palier majoré"
    );
}

#[test]
fn sans_seuil_de_bascule_les_heures_s_empilent() {
    let calcul =
        calculer(480, &deloria(), Some(1_200), None, Some(12_500)).expect("barème exploitable");
    assert_eq!(calcul.formule_appliquee, FamilleFormule::Passage);
    assert_eq!(calcul.montant_du_mineur, 5_000 + 4 * 1_200);
}

#[test]
fn toute_heure_entamee_est_due() {
    assert_eq!(calculer_deloria(241).montant_du_mineur, 6_200);
    assert_eq!(calculer_deloria(300).montant_du_mineur, 6_200);
    assert_eq!(calculer_deloria(301).montant_du_mineur, 7_400);
}

#[test]
fn la_borne_du_palier_est_incluse() {
    assert_eq!(calculer_deloria(240).montant_du_mineur, 5_000);
    assert_eq!(calculer_deloria(240).heures_supplementaires, 0);
}

#[test]
fn un_bareme_sans_palier_est_refuse() {
    assert_eq!(
        calculer(120, &[], Some(1_200), Some(480), Some(12_500)),
        Err(ErreurBareme::BaremeAbsent)
    );
}

#[test]
fn des_paliers_en_desordre_donnent_le_meme_resultat() {
    let desordre = vec![
        Palier { duree_minutes: 240, prix_mineur: 5_000 },
        Palier { duree_minutes: 60, prix_mineur: 1_500 },
        Palier { duree_minutes: 180, prix_mineur: 4_000 },
        Palier { duree_minutes: 120, prix_mineur: 2_800 },
    ];
    let calcul = calculer(120, &desordre, Some(1_200), Some(480), Some(12_500)).unwrap();
    assert_eq!(calcul.montant_du_mineur, 2_800);
}

#[test]
fn sans_heure_supplementaire_le_dernier_palier_plafonne() {
    let calcul = calculer(300, &deloria(), None, None, None).expect("barème exploitable");
    assert_eq!(calcul.montant_du_mineur, 5_000);
    assert_eq!(calcul.heures_supplementaires, 0);
}

#[test]
fn l_arithmetique_reste_entiere_sur_de_grands_montants() {
    let gros = vec![Palier { duree_minutes: 60, prix_mineur: 9_007_199_254_740_993 }];
    let calcul = calculer(30, &gros, None, None, None).unwrap();
    assert_eq!(calcul.montant_du_mineur, 9_007_199_254_740_993);
}

#[test]
fn le_code_du_bareme_absent_est_stable() {
    assert_eq!(ErreurBareme::BaremeAbsent.code(), "bareme_absent");
}

#[test]
fn sans_prix_de_nuitee_le_seuil_ne_bascule_pas() {
    let calcul = calculer(480, &deloria(), Some(1_200), Some(480), None).unwrap();
    assert_eq!(calcul.formule_appliquee, FamilleFormule::Passage);
    assert_eq!(calcul.montant_du_mineur, 9_800);
}

#[test]
fn deux_paliers_de_meme_duree_retiennent_le_premier_fourni() {
    let doublon = vec![
        Palier { duree_minutes: 60, prix_mineur: 1_000 },
        Palier { duree_minutes: 60, prix_mineur: 2_000 },
    ];
    assert_eq!(calculer(30, &doublon, None, None, None).unwrap().montant_du_mineur, 1_000);
}

#[test]
fn la_rebascule_compare_au_palier_vendu() {
    let calcul = calculer_deloria(150);
    assert_eq!(calcul.montant_du_mineur, 4_000);
    assert_eq!(
        rebascule(&deloria(), 60, &calcul),
        Some(Rebascule {
            palier_vendu_minutes: 60,
            montant_vendu_mineur: 1_500,
            difference_mineur: 2_500
        })
    );
    assert_eq!(rebascule(&deloria(), 180, &calcul), None);
}

#[test]
fn le_seuil_de_bascule_doit_tenir_sur_32_bits() {
    assert_eq!(seuil_bascule_depuis(Some(480)), Some(480));
    assert_eq!(seuil_bascule_depuis(Some(i64::MAX)), None);
    assert_eq!(seuil_bascule_depuis(None), None);
}

#[test]
fn une_nuitee_est_facturee_a_son_prix_d_appel() {
    let instant = Horodatage { unix_nanos: 0, decalage_secondes: 0 };
    let d = decider_tarification(
        FamilleFormule::Nuitee,
        600,
        12_500,
        &[],
        None,
        None,
        None,
        0,
        "XOF".to_owned(),
        instant,
    )
    .unwrap();
    assert_eq!(d.montant_du_mineur, 12_500);
    assert_eq!(d.formule_appliquee, FamilleFormule::Nuitee);
    assert_eq!(d.devise, "XOF");
    assert!(d.rebascule.is_none());
}

#[test]
fn un_passage_passe_par_le_bareme_et_constate_la_rebascule() {
    let instant = Horodatage { unix_nanos: 5, decalage_secondes: 0 };
    let d = decider_tarification(
        FamilleFormule::Passage,
        250,
        1_500,
        &deloria(),
        Some(1_200),
        Some(480),
        Some(12_500),
        120,
        "XOF".to_owned(),
        instant,
    )
    .unwrap();
    assert_eq!(d.montant_du_mineur, 6_200);
    assert_eq!(d.heures_supplementaires, 1);
    assert_eq!(d.rebascule.map(|r| r.difference_mineur), Some(3_400));
    let sans_palier = decider_tarification(
        FamilleFormule::Passage,
        250,
        1_500,
        &[],
        None,
        None,
        None,
        0,
        "XOF".to_owned(),
        instant,
    );
    assert!(matches!(
        sans_palier,
        Err(ErreurAttribution::Referentiel(ErreurReferentiel::BaremeAbsent))
    ));
}

#[test]
fn un_bareme_ordinaire_tient_dans_64_bits() {
    assert!(calcul_tient(250, &deloria(), Some(1_200), Some(480), Some(12_500)));
    assert!(calcul_tient(i64::MAX, &deloria(), Some(1_200), Some(480), Some(12_500)));
    assert!(calcul_tient(i64::MAX, &[], Some(i64::MAX), None, None));
}

#[test]
fn des_heures_supplementaires_demesurees_ne_tiennent_pas() {
    // Sans bascule, une durée immense au prix d'heure maximal déborderait.
    assert!(!calcul_tient(i64::MAX, &deloria(), Some(i64::MAX), None, None));
    assert!(!calcul_tient(10_000, &deloria(), Some(i64::MAX), None, None));
    // Sans prix d'heure, le dernier palier plafonne : rien ne déborde.
    assert!(calcul_tient(i64::MAX, &deloria(), None, None, None));
    // Une durée couverte par un palier ne multiplie rien.
    assert!(calcul_tient(60, &deloria(), Some(i64::MAX), None, None));
}

#[test]
fn la_difference_avec_le_palier_vendu_doit_tenir() {
    let paliers = [
        Palier { duree_minutes: 60, prix_mineur: i64::MIN },
        Palier { duree_minutes: 120, prix_mineur: i64::MAX },
    ];
    // Vendu une heure, resté deux : i64::MAX − i64::MIN déborde.
    assert!(!decision_tient(FamilleFormule::Passage, 120, &paliers, None, None, None, 60));
    // Vendu deux heures, resté deux : aucune différence.
    assert!(decision_tient(FamilleFormule::Passage, 120, &paliers, None, None, None, 120));
    // Une nuitée ne passe pas par le barème.
    assert!(decision_tient(FamilleFormule::Nuitee, 120, &paliers, None, None, None, 60));
}
