use kaya::hebergement::sejour::issue_ouverture;
use kaya::hebergement::erreurs::ErreurSejour;
use kaya::hebergement::occupation::ErreurAttribution;
use kaya::hebergement::sejour::{
    clients_a_resoudre, decider_ajout, est_rejeu_complet, garder, habiller_de_noms,
    identifiant_fiche, identifiant_ligne, identifiant_note, identifiant_occupation,
    identifiant_reconciliation, issue_ajout, nom_client, nombre_personnes, planifier_ouverture,
    statut_lu, tarif_prevu, total_note, Accompagnant, DecisionAjout, IssueAccompagnant,
    LigneSejour, ResumeClient, Sejour, StatutSejour, TotalNote,
};
use kaya::hebergement::tarification::Palier;
use kaya::hebergement::Issue;
use kaya::temps::Horodatage;
use uuid::Uuid;

fn instant(annee: i32, mois: u8, jour: u8, h: u8, m: u8) -> Horodatage {
    let date =
        time::Date::from_calendar_date(annee, time::Month::try_from(mois).unwrap(), jour).unwrap();
    let t = date.with_hms(h, m, 0).unwrap().assume_utc();
    Horodatage { unix_nanos: t.unix_timestamp_nanos(), decalage_secondes: 0 }
}

#[test]
fn la_derivation_est_deterministe() {
    let sejour = Uuid::now_v7().as_u128();
    assert_eq!(identifiant_note(sejour), identifiant_note(sejour));
    assert_eq!(identifiant_fiche(sejour), identifiant_fiche(sejour));
    assert_eq!(identifiant_occupation(sejour, 0), identifiant_occupation(sejour, 0));
}

#[test]
fn les_familles_ne_collisionnent_pas() {
    let sejour = Uuid::now_v7().as_u128();
    let derives = [
        identifiant_occupation(sejour, 0),
        identifiant_note(sejour),
        identifiant_ligne(sejour, 0),
        identifiant_fiche(sejour),
        identifiant_reconciliation(sejour),
    ];
    let mut uniques = derives.to_vec();
    uniques.sort();
    uniques.dedup();
    assert_eq!(uniques.len(), derives.len(), "deux familles partagent un identifiant");
}

#[test]
fn deux_rangs_de_la_meme_famille_different() {
    let sejour = Uuid::now_v7().as_u128();
    assert_ne!(identifiant_occupation(sejour, 0), identifiant_occupation(sejour, 1));
    assert_ne!(identifiant_ligne(sejour, 0), identifiant_ligne(sejour, 7));
}

#[test]
fn deux_sejours_ne_partagent_aucun_derive() {
    let a = Uuid::now_v7().as_u128();
    let b = Uuid::now_v7().as_u128();
    assert_ne!(identifiant_note(a), identifiant_note(b));
    assert_ne!(identifiant_fiche(a), identifiant_fiche(b));
}

#[test]
fn la_derivation_ne_touche_que_les_trois_derniers_octets() {
    let sejour = 0x0190_0000_0000_7000_8000_0000_0000_0000u128;
    assert_eq!(identifiant_note(sejour), sejour ^ 0x02_0000);
    assert_eq!(identifiant_ligne(sejour, 0x0102), sejour ^ 0x03_0102);
    assert_eq!(identifiant_occupation(sejour, 1) >> 24, sejour >> 24);
    let u = Uuid::from_u128(identifiant_fiche(sejour));
    assert_eq!(u.as_bytes()[13], 0x04);
}

#[test]
fn le_statut_se_relit_et_un_code_inconnu_vaut_en_cours() {
    for s in [StatutSejour::EnCours, StatutSejour::Clos] {
        assert_eq!(StatutSejour::depuis_code(s.code()), Some(s));
    }
    assert_eq!(StatutSejour::depuis_code("annule"), None);
    assert_eq!(statut_lu("clos"), StatutSejour::Clos);
    assert_eq!(statut_lu("futur"), StatutSejour::EnCours);
}

#[test]
fn le_tarif_prevu_d_un_passage_est_une_occurrence_du_palier() {
    let paliers = [
        Palier { duree_minutes: 60, prix_mineur: 1_500 },
        Palier { duree_minutes: 120, prix_mineur: 2_800 },
    ];
    let r = tarif_prevu("PASSAGE", 1_500, Some(1_200), &paliers, instant(2026, 8, 3, 14, 0), instant(2026, 8, 3, 16, 0));
    assert_eq!(r.unwrap(), (1, 2_800, 2_800));
    // Dix heures demandées : aucune bascule à l'ouverture, les heures s'empilent.
    let r = tarif_prevu("PASSAGE", 1_500, Some(1_200), &paliers, instant(2026, 8, 3, 8, 0), instant(2026, 8, 3, 18, 0));
    assert_eq!(r.unwrap(), (1, 2_800 + 8 * 1_200, 2_800 + 8 * 1_200));
    let sans = tarif_prevu("PASSAGE", 1_500, None, &[], instant(2026, 8, 3, 14, 0), instant(2026, 8, 3, 16, 0));
    assert!(matches!(sans, Err(ErreurSejour::Attribution(ErreurAttribution::FormuleInconnue))));
}

#[test]
fn le_tarif_prevu_d_une_nuitee_compte_les_nuits_entamees() {
    let r = tarif_prevu("NUITEE", 12_500, None, &[], instant(2026, 8, 3, 14, 0), instant(2026, 8, 6, 11, 0));
    assert_eq!(r.unwrap(), (3, 12_500, 37_500));
    let r = tarif_prevu("NUITEE", 12_500, None, &[], instant(2026, 8, 3, 22, 0), instant(2026, 8, 4, 2, 0));
    assert_eq!(r.unwrap(), (1, 12_500, 12_500));
    let r = tarif_prevu("NUITEE", 12_500, None, &[], instant(2026, 8, 3, 14, 0), instant(2026, 8, 4, 14, 1));
    assert_eq!(r.unwrap(), (2, 12_500, 25_000));
    let r = tarif_prevu("NUITEE", i64::MAX, None, &[], instant(2026, 8, 3, 14, 0), instant(2026, 8, 6, 14, 0));
    assert_eq!(r.unwrap(), (3, i64::MAX, i64::MAX));
}

#[test]
fn le_tarif_prevu_des_autres_familles_est_le_prix_d_appel() {
    let r = tarif_prevu("MENSUEL", 300_000, None, &[], instant(2026, 8, 1, 12, 0), instant(2026, 9, 1, 12, 0));
    assert_eq!(r.unwrap(), (1, 300_000, 300_000));
    let r = tarif_prevu("SEMAINE", 1, None, &[], instant(2026, 8, 1, 12, 0), instant(2026, 8, 2, 12, 0));
    assert!(matches!(r, Err(ErreurSejour::Attribution(ErreurAttribution::FormuleInconnue))));
}

#[test]
fn l_arrivee_derive_ses_identifiants_du_sejour() {
    let sejour = Uuid::now_v7().as_u128();
    let plan = planifier_ouverture(sejour, None);
    assert_eq!(plan.occupation_id, identifiant_occupation(sejour, 0));
    assert_eq!(plan.note_id, identifiant_note(sejour));
    assert_eq!(plan.ligne_id, identifiant_ligne(sejour, 0));
    assert_eq!(plan.fiche_id, identifiant_fiche(sejour));
    assert!(!plan.fiche_complete);
    assert!(planifier_ouverture(sejour, Some(3)).fiche_complete);
}

#[test]
fn seul_un_rejeu_complet_n_ecrit_rien() {
    assert!(est_rejeu_complet(false, Issue::DejaPresente));
    assert!(!est_rejeu_complet(true, Issue::DejaPresente));
    assert!(!est_rejeu_complet(false, Issue::Creee));
}

#[test]
fn la_garde_refuse_un_etablissement_inconnu_puis_un_service_inactif() {
    assert!(matches!(garder(false, true), Err(ErreurSejour::EtablissementInconnu)));
    assert!(matches!(garder(true, false), Err(ErreurSejour::ServiceInactif)));
    assert!(garder(true, true).is_ok());
}

fn accompagnant() -> Accompagnant {
    Accompagnant {
        id: 9,
        sejour_id: 1,
        nom: "Kouassi".to_owned(),
        prenoms: None,
        piece_enregistree: false,
        retire_le: None,
        cree_le: Horodatage { unix_nanos: 0, decalage_secondes: 0 },
    }
}

#[test]
fn un_ajout_sur_un_sejour_clos_part_en_reconciliation() {
    assert_eq!(
        decider_ajout(StatutSejour::Clos, 9),
        DecisionAjout::Reconcilier { reconciliation_id: identifiant_reconciliation(9) }
    );
    assert_eq!(decider_ajout(StatutSejour::EnCours, 9), DecisionAjout::Inserer);
    assert!(matches!(issue_ajout(true, accompagnant()), IssueAccompagnant::Ajoute(a) if a.id == 9));
    assert!(matches!(issue_ajout(false, accompagnant()), IssueAccompagnant::Rejeu(_)));
}

#[test]
fn le_titulaire_compte_pour_un() {
    assert_eq!(nombre_personnes(0), 1);
    assert_eq!(nombre_personnes(2), 3);
    assert_eq!(nombre_personnes(i64::MAX), i32::MAX);
}

#[test]
fn le_total_de_la_note_est_la_somme_saturee_des_lignes() {
    assert_eq!(total_note(&[]), 0);
    assert_eq!(total_note(&[12_500, 12_500, -2_000]), 23_000);
    assert_eq!(total_note(&[i64::MAX, 10, -10]), i64::MAX - 10);
    assert_eq!(total_note(&[i64::MIN, -1]), i64::MIN);
}

fn sejour(id: u128, client_id: Option<u128>) -> Sejour {
    Sejour {
        id,
        etablissement_id: 1,
        client_id,
        statut: StatutSejour::EnCours,
        ouvert_le: Horodatage { unix_nanos: 0, decalage_secondes: 0 },
        clos_le: None,
    }
}

#[test]
fn la_liste_est_habillee_du_nom_des_clients() {
    let lignes = vec![
        LigneSejour {
            sejour: sejour(1, Some(10)),
            unite_id: Some(100),
            fin_prevue: None,
            note: Some(TotalNote { total_mineur: 12_500, devise: "XOF".to_owned() }),
            nombre_personnes: 2,
        },
        LigneSejour { sejour: sejour(2, None), unite_id: None, fin_prevue: None, note: None, nombre_personnes: 1 },
        LigneSejour { sejour: sejour(3, Some(11)), unite_id: None, fin_prevue: None, note: None, nombre_personnes: 1 },
        LigneSejour { sejour: sejour(4, Some(12)), unite_id: None, fin_prevue: None, note: None, nombre_personnes: 1 },
    ];
    assert_eq!(clients_a_resoudre(&lignes), vec![10, 11, 12]);
    let resumes = vec![
        ResumeClient {
            id: 10,
            nom: "Koffi".to_owned(),
            prenoms: Some("Aya Marie".to_owned()),
            telephone: Some("0700".to_owned()),
        },
        ResumeClient { id: 11, nom: "Traoré".to_owned(), prenoms: None, telephone: None },
    ];
    let vues = habiller_de_noms(&lignes, &resumes);
    assert_eq!(vues.len(), 4);
    assert_eq!(vues[0].client_nom.as_deref(), Some("Koffi Aya Marie"));
    assert_eq!(vues[0].client_telephone.as_deref(), Some("0700"));
    assert_eq!(vues[0].total_mineur, 12_500);
    assert_eq!(vues[0].devise, "XOF");
    assert_eq!(vues[0].unite_id, Some(100));
    assert_eq!(vues[0].nombre_personnes, 2);
    assert_eq!(vues[1].client_nom, None);
    assert_eq!(vues[1].total_mineur, 0);
    assert_eq!(vues[1].devise, "");
    assert_eq!(vues[2].client_nom.as_deref(), Some("Traoré"));
    // Un client absent de la réponse — purgé — se présente sans nom.
    assert_eq!(vues[3].client_nom, None);
    assert_eq!(vues[3].sejour.id, 4);
    assert_eq!(nom_client(&resumes[1]), "Traoré");
}

#[test]
fn une_arrivee_rejouee_rend_deja_presente() {
    assert_eq!(issue_ouverture(false, Issue::DejaPresente), Issue::DejaPresente);
    assert_eq!(issue_ouverture(true, Issue::DejaPresente), Issue::Creee);
    assert_eq!(issue_ouverture(false, Issue::Creee), Issue::Creee);
    assert_eq!(issue_ouverture(true, Issue::Creee), Issue::Creee);
    let sejour = 0x0190_0000_0000_7000_8000_0000_0000_0000u128;
    let a = planifier_ouverture(sejour, Some(5));
    let b = planifier_ouverture(sejour, Some(5));
    let c = planifier_ouverture(sejour, None);
    assert_eq!(a, b);
    assert_eq!((a.occupation_id, a.note_id, a.ligne_id, a.fiche_id), (c.occupation_id, c.note_id, c.ligne_id, c.fiche_id));
    assert!(a.fiche_complete && !c.fiche_complete);
}
