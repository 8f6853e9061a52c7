use kaya::hebergement::referentiel::{
    evenements_modification_formule, TYPE_CATEGORIE_TARIF_MODIFIE, TYPE_FORMULE_MODIFIEE,
};
use kaya::hebergement::erreurs::{
    est_interblocage, est_violation_exclusion, ErreurSejour, ErreurSql, GenreErreurBase,
    CONTRAINTE_SANS_CHEVAUCHEMENT,
};
use kaya::hebergement::occupation::{
    fin_de_periode, issue_de, traduire_insertion, verifier_formule, verifier_intervalle,
    verifier_plage, ErreurAttribution, PlageEnInstants, StatutOccupation,
};
use kaya::hebergement::referentiel::{
    heure_depuis_texte, heure_en_texte, nettoyer_libelle, valider_enfants,
    valider_modification_formule, ErreurReferentiel, FamilleFormule, ModifierFormule, PalierVue,
    RegleConversionTaxe, StatutMenage,
};
use kaya::hebergement::taxe::nuits_calendaires;
use kaya::hebergement::Issue;
use kaya::temps::{jour_local, minutes_ecoulees, precede, Horodatage};

fn instant(annee: i32, mois: u8, jour: u8, h: u8, m: u8) -> Horodatage {
    let date =
        time::Date::from_calendar_date(annee, time::Month::try_from(mois).unwrap(), jour).unwrap();
    let t = date.with_hms(h, m, 0).unwrap().assume_utc();
    Horodatage { unix_nanos: t.unix_timestamp_nanos(), decalage_secondes: 0 }
}

fn erreur(genre: GenreErreurBase, contrainte: Option<&str>) -> ErreurSql {
    ErreurSql::Base { genre, contrainte: contrainte.map(str::to_owned), code: None }
}

// ---------------------------------------------------------------------------------------------
//  La traduction des erreurs de base
// ---------------------------------------------------------------------------------------------

#[test]
fn la_violation_de_la_bonne_contrainte_est_reconnue() {
    let e = erreur(GenreErreurBase::ExclusionViolation, Some(CONTRAINTE_SANS_CHEVAUCHEMENT));
    assert!(est_violation_exclusion(&e, CONTRAINTE_SANS_CHEVAUCHEMENT));
}

#[test]
fn une_autre_contrainte_d_exclusion_n_est_pas_une_double_attribution() {
    let e = erreur(GenreErreurBase::ExclusionViolation, Some("une_autre_contrainte"));
    assert!(!est_violation_exclusion(&e, CONTRAINTE_SANS_CHEVAUCHEMENT));
}

#[test]
fn un_autre_genre_d_erreur_n_est_pas_une_violation_d_exclusion() {
    let e = erreur(GenreErreurBase::UniqueViolation, Some(CONTRAINTE_SANS_CHEVAUCHEMENT));
    assert!(!est_violation_exclusion(&e, CONTRAINTE_SANS_CHEVAUCHEMENT));
}

#[test]
fn une_erreur_sans_contrainte_nommee_n_en_est_pas_une() {
    let e = erreur(GenreErreurBase::ExclusionViolation, None);
    assert!(!est_violation_exclusion(&e, CONTRAINTE_SANS_CHEVAUCHEMENT));
}

#[test]
fn une_erreur_hors_base_n_en_est_pas_une() {
    assert!(!est_violation_exclusion(
        &ErreurSql::Autre("délai dépassé".to_owned()),
        CONTRAINTE_SANS_CHEVAUCHEMENT
    ));
}

#[test]
fn l_interblocage_se_reconnait_a_son_code() {
    let e = ErreurSql::Base {
        genre: GenreErreurBase::Autre,
        contrainte: None,
        code: Some("40P01".to_owned()),
    };
    assert!(est_interblocage(&e));
    assert!(!est_interblocage(&erreur(GenreErreurBase::ExclusionViolation, None)));
}

#[test]
fn une_insertion_en_conflit_devient_unite_deja_occupee() {
    let e = erreur(GenreErreurBase::ExclusionViolation, Some(CONTRAINTE_SANS_CHEVAUCHEMENT));
    assert!(matches!(traduire_insertion(Err(e)), Err(ErreurAttribution::UniteDejaOccupee)));
    let autre = erreur(GenreErreurBase::CheckViolation, Some("x"));
    assert!(matches!(traduire_insertion(Err(autre)), Err(ErreurAttribution::Base(_))));
    assert!(matches!(traduire_insertion(Ok(true)), Ok(true)));
    assert_eq!(issue_de(true), Issue::Creee);
    assert_eq!(issue_de(false), Issue::DejaPresente);
}

#[test]
fn les_codes_des_refus_de_sejour_sont_stables() {
    assert_eq!(ErreurSejour::SejourDejaClos.code(), "sejour_deja_clos");
    assert_eq!(
        ErreurSejour::Attribution(ErreurAttribution::UniteDejaOccupee).code(),
        "unite_deja_occupee"
    );
    assert_eq!(ErreurSejour::Interne("x".to_owned()).code(), "erreur_interne");
    assert_eq!(ErreurAttribution::OccupationDejaLiberee.code(), "occupation_deja_liberee");
    assert_eq!(
        ErreurAttribution::Referentiel(ErreurReferentiel::BaremeAbsent).code(),
        "bareme_absent"
    );
}

// ---------------------------------------------------------------------------------------------
//  Le référentiel
// ---------------------------------------------------------------------------------------------

#[test]
fn les_quatre_familles_font_l_aller_retour() {
    for famille in FamilleFormule::TOUTES {
        assert_eq!(FamilleFormule::depuis_code(famille.code()).unwrap(), famille);
    }
}

#[test]
fn une_famille_inconnue_est_refusee_et_nommee() {
    let erreur = FamilleFormule::depuis_code("SEMAINE").unwrap_err();
    assert_eq!(erreur.code(), "famille_inconnue");
    assert!(erreur.message().contains("SEMAINE"));
}

#[test]
fn les_quatre_regles_de_conversion_font_l_aller_retour() {
    for regle in RegleConversionTaxe::TOUTES {
        assert_eq!(RegleConversionTaxe::depuis_code(regle.code()).unwrap(), regle);
    }
}

#[test]
fn les_codes_sont_ceux_de_la_migration() {
    assert_eq!(FamilleFormule::DemiJournee.code(), "DEMI_JOURNEE");
    assert_eq!(RegleConversionTaxe::UneNuiteeParOccupation.code(), "une_nuitee_par_occupation");
    assert_eq!(StatutMenage::ANettoyer.code(), "a_nettoyer");
}

#[test]
fn une_heure_murale_fait_l_aller_retour() {
    let heure = heure_depuis_texte("08:30").unwrap();
    assert_eq!(heure_en_texte(heure), "08:30");
    assert_eq!(heure_en_texte(heure_depuis_texte("14:00").unwrap()), "14:00");
}

#[test]
fn une_heure_hors_bornes_est_refusee() {
    for texte in ["25:00", "12:61", "midi", "12", "12:00:00", ""] {
        assert!(
            heure_depuis_texte(texte).is_err(),
            "« {texte} » ne devrait pas être accepté comme heure murale"
        );
    }
}

#[test]
fn un_passage_sans_palier_est_refuse() {
    let erreur = valider_enfants(FamilleFormule::Passage, 0, 0).unwrap_err();
    assert_eq!(erreur.code(), "bareme_absent");
}

#[test]
fn une_demi_journee_sans_plage_est_refusee() {
    let erreur = valider_enfants(FamilleFormule::DemiJournee, 0, 0).unwrap_err();
    assert_eq!(erreur.code(), "plages_absentes");
}

#[test]
fn la_nuitee_et_le_mensuel_n_exigent_ni_palier_ni_plage() {
    for famille in [FamilleFormule::Nuitee, FamilleFormule::Mensuel] {
        assert!(
            valider_enfants(famille, 0, 0).is_ok(),
            "{famille:?} ne doit exiger ni palier ni plage"
        );
    }
}

#[test]
fn les_statuts_se_relisent_et_un_code_inconnu_est_nomme() {
    for statut in [StatutMenage::ANettoyer, StatutMenage::Propre, StatutMenage::Maintenance] {
        assert_eq!(StatutMenage::depuis_code(statut.code()).unwrap(), statut);
    }
    let e = StatutMenage::depuis_code("sale").unwrap_err();
    assert_eq!(e.code(), "statut_menage_inconnu");
    assert!(matches!(RegleConversionTaxe::depuis_code("x"), Err(ErreurReferentiel::RegleConversionInconnue(v)) if v == "x"));
    for statut in [StatutOccupation::Active, StatutOccupation::Liberee] {
        assert_eq!(StatutOccupation::depuis_code(statut.code()).unwrap(), statut);
    }
    assert_eq!(StatutOccupation::depuis_code("?").unwrap_err().code(), "statut_inconnu");
}

#[test]
fn une_heure_avec_signe_ou_a_un_chiffre_reste_lisible() {
    let h = heure_depuis_texte("8:05").unwrap();
    assert_eq!(heure_en_texte(h), "08:05");
    assert_eq!(heure_depuis_texte("24:00").unwrap_err().code(), "heure_invalide");
}

#[test]
fn un_libelle_est_rogne_et_borne() {
    assert_eq!(nettoyer_libelle("  Suite  ", 120, "nom").unwrap(), "Suite");
    let e = nettoyer_libelle("   ", 120, "nom").unwrap_err();
    assert!(matches!(e, ErreurReferentiel::ChampNonModifiable(ref c) if c == "nom"));
    assert!(nettoyer_libelle("abcd", 3, "code").is_err());
}

#[test]
fn une_modification_de_passage_garde_un_palier() {
    let demande = ModifierFormule {
        prix_mineur: 1_500,
        duree_min_minutes: None,
        duree_max_minutes: None,
        heure_arrivee_standard: None,
        heure_depart_standard: None,
        jours_autorises: None,
        assujettie_taxe_nuitee: false,
        regle_conversion_taxe: None,
        prix_heure_supplementaire_mineur: None,
        paliers: vec![],
        plages: vec![],
    };
    assert!(matches!(
        valider_modification_formule(FamilleFormule::Passage, &demande),
        Err(ErreurReferentiel::BaremeAbsent)
    ));
    let avec = ModifierFormule {
        paliers: vec![PalierVue { duree_minutes: 60, prix_mineur: 1_500 }],
        ..demande
    };
    assert!(valider_modification_formule(FamilleFormule::Passage, &avec).is_ok());
}

// ---------------------------------------------------------------------------------------------
//  L'occupation
// ---------------------------------------------------------------------------------------------

#[test]
fn un_intervalle_vide_ou_inverse_est_refuse() {
    let a = instant(2026, 8, 3, 14, 0);
    let b = instant(2026, 8, 3, 16, 0);
    assert!(verifier_intervalle(a, b).is_ok());
    assert!(matches!(verifier_intervalle(a, a), Err(ErreurAttribution::IntervalleInvalide)));
    assert!(matches!(verifier_intervalle(b, a), Err(ErreurAttribution::IntervalleInvalide)));
}

#[test]
fn la_duree_doit_tenir_dans_les_bornes_de_la_formule() {
    let a = instant(2026, 8, 3, 14, 0);
    let b = instant(2026, 8, 3, 16, 0);
    assert_eq!(verifier_formule("PASSAGE", Some(60), Some(240), a, b).unwrap(), FamilleFormule::Passage);
    assert!(matches!(
        verifier_formule("PASSAGE", Some(180), None, a, b),
        Err(ErreurAttribution::DureeHorsContrainte)
    ));
    assert!(matches!(
        verifier_formule("SEMAINE", None, None, a, b),
        Err(ErreurAttribution::Referentiel(ErreurReferentiel::FamilleInconnue(_)))
    ));
}

#[test]
fn une_demi_journee_doit_coincider_avec_une_plage() {
    let plages = [
        PlageEnInstants { debut: instant(2026, 8, 3, 8, 0), fin: instant(2026, 8, 3, 12, 0) },
        PlageEnInstants { debut: instant(2026, 8, 3, 14, 0), fin: instant(2026, 8, 3, 18, 0) },
    ];
    assert!(verifier_plage(&plages, instant(2026, 8, 3, 14, 0), instant(2026, 8, 3, 18, 0)).is_ok());
    assert!(matches!(
        verifier_plage(&plages, instant(2026, 8, 3, 9, 0), instant(2026, 8, 3, 12, 0)),
        Err(ErreurAttribution::PlageNonFractionnable)
    ));
}

#[test]
fn le_battement_prolonge_la_periode_indisponible() {
    let fin = instant(2026, 8, 3, 12, 0);
    assert_eq!(fin_de_periode(fin, 30), instant(2026, 8, 3, 12, 30));
    assert_eq!(fin_de_periode(fin, 0), fin);
}

// ---------------------------------------------------------------------------------------------
//  Le temps et les nuits
// ---------------------------------------------------------------------------------------------

#[test]
fn un_passage_ne_produit_aucune_nuit() {
    assert_eq!(nuits_calendaires(instant(2026, 8, 3, 14, 0), instant(2026, 8, 3, 16, 0)), 0);
}

#[test]
fn une_nuit_a_cheval_sur_minuit_en_produit_une() {
    assert_eq!(nuits_calendaires(instant(2026, 8, 3, 22, 0), instant(2026, 8, 4, 8, 0)), 1);
}

#[test]
fn trois_nuits_en_produisent_trois_et_la_fonction_ne_reduit_rien() {
    assert_eq!(
        nuits_calendaires(instant(2026, 8, 3, 14, 0), instant(2026, 8, 6, 11, 0)),
        3,
        "cette fonction rend TROIS : réduire à un serait appliquer une règle fiscale"
    );
}

#[test]
fn un_intervalle_vide_ou_inverse_rend_zero() {
    assert_eq!(nuits_calendaires(instant(2026, 8, 3, 14, 0), instant(2026, 8, 3, 14, 0)), 0);
    assert_eq!(nuits_calendaires(instant(2026, 8, 6, 14, 0), instant(2026, 8, 3, 14, 0)), 0);
}

#[test]
fn les_nuits_se_comptent_en_jours_locaux() {
    // 23 h 30 à Abidjan (UTC) est 00 h 30 le lendemain à UTC+1 : la même période, vue dans un
    // fuseau où elle ne franchit aucun minuit, ne compte aucune nuit.
    let debut = Horodatage { decalage_secondes: 3600, ..instant(2026, 8, 3, 23, 30) };
    let fin = Horodatage { decalage_secondes: 3600, ..instant(2026, 8, 4, 8, 0) };
    assert_eq!(nuits_calendaires(debut, fin), 0);
    assert_eq!(nuits_calendaires(instant(2026, 8, 3, 23, 30), instant(2026, 8, 4, 8, 0)), 1);
}

#[test]
fn les_minutes_ecoulees_sont_tronquees_vers_zero() {
    let a = instant(2026, 8, 3, 14, 0);
    let b = Horodatage { unix_nanos: a.unix_nanos + 90_000_000_000, ..a };
    assert_eq!(minutes_ecoulees(a, b), 1);
    assert_eq!(minutes_ecoulees(b, a), -1);
    assert!(precede(a, b));
    assert!(!precede(b, a));
    assert_eq!(jour_local(instant(1970, 1, 2, 0, 0)), 1);
    assert_eq!(jour_local(instant(1969, 12, 31, 23, 59)), -1);
}

// ---------------------------------------------------------------------------------------------
//  La composition des formules et des types de chambre
// ---------------------------------------------------------------------------------------------

use kaya::hebergement::referentiel::{
    composer_categorie, composer_formule, composer_formules, HeureMurale, LigneBattement,
    LigneCategorie, LigneFormule, LignePalier, LignePlage,
};

fn ligne_formule(id: u128, famille: &str, regle: Option<&str>) -> LigneFormule {
    LigneFormule {
        id,
        categorie_id: 1,
        famille: famille.to_owned(),
        prix_mineur: 1_500,
        duree_min_minutes: None,
        duree_max_minutes: Some(240),
        heure_arrivee_standard: Some(HeureMurale { heure: 14, minute: 0 }),
        heure_depart_standard: None,
        jours_autorises: Some(vec![1, 2, 3]),
        assujettie_taxe_nuitee: regle.is_some(),
        regle_conversion_taxe: regle.map(str::to_owned),
        prix_heure_supplementaire_mineur: Some(1_200),
    }
}

#[test]
fn une_formule_est_composee_avec_ses_seuls_paliers_et_plages() {
    let paliers = [
        LignePalier { formule_id: 10, duree_minutes: 60, prix_mineur: 1_500 },
        LignePalier { formule_id: 11, duree_minutes: 90, prix_mineur: 9 },
        LignePalier { formule_id: 10, duree_minutes: 120, prix_mineur: 2_800 },
    ];
    let plages = [LignePlage {
        id: 5,
        formule_id: 11,
        heure_debut: HeureMurale { heure: 8, minute: 0 },
        heure_fin: HeureMurale { heure: 12, minute: 30 },
        libelle_cle: "matin".to_owned(),
    }];
    let f = composer_formule(&ligne_formule(10, "PASSAGE", Some("aucune")), &paliers, &plages, "XOF").unwrap();
    assert_eq!(f.famille, FamilleFormule::Passage);
    assert_eq!(f.devise, "XOF");
    assert_eq!(f.heure_arrivee_standard.as_deref(), Some("14:00"));
    assert_eq!(f.regle_conversion_taxe, Some(RegleConversionTaxe::Aucune));
    assert_eq!(f.paliers, vec![PalierVue { duree_minutes: 60, prix_mineur: 1_500 }, PalierVue { duree_minutes: 120, prix_mineur: 2_800 }]);
    assert!(f.plages.is_empty());
    assert_eq!(f.jours_autorises, Some(vec![1, 2, 3]));
    let g = composer_formule(&ligne_formule(11, "DEMI_JOURNEE", None), &paliers, &plages, "XOF").unwrap();
    assert_eq!(g.plages.len(), 1);
    assert_eq!((g.plages[0].heure_debut.as_str(), g.plages[0].heure_fin.as_str()), ("08:00", "12:30"));
}

#[test]
fn un_code_illisible_en_base_fait_refuser_la_formule() {
    let e = composer_formule(&ligne_formule(1, "SEMAINE", Some("par_lune")), &[], &[], "XOF").unwrap_err();
    assert!(matches!(e, ErreurReferentiel::RegleConversionInconnue(ref c) if c == "par_lune"));
    let e = composer_formule(&ligne_formule(1, "SEMAINE", None), &[], &[], "XOF").unwrap_err();
    assert!(matches!(e, ErreurReferentiel::FamilleInconnue(ref c) if c == "SEMAINE"));
    let lignes = vec![
        ligne_formule(1, "NUITEE", None),
        ligne_formule(2, "SEMAINE", None),
        ligne_formule(3, "NUITEE", Some("par_lune")),
    ];
    // Le refus rendu est celui de la première ligne illisible.
    let e = composer_formules(&lignes, &[], &[], "XOF").unwrap_err();
    assert!(matches!(e, ErreurReferentiel::FamilleInconnue(ref c) if c == "SEMAINE"));
    assert_eq!(composer_formules(&lignes[..1], &[], &[], "XOF").unwrap().len(), 1);
}

#[test]
fn un_type_de_chambre_porte_ses_seuls_battements() {
    let ligne = LigneCategorie { id: 1, etablissement_id: 2, nom: "Suite".to_owned(), capacite_accueil: 2 };
    let battements = vec![
        LigneBattement { categorie_id: 1, famille_formule: "PASSAGE".to_owned(), duree_minutes: 30 },
        LigneBattement { categorie_id: 3, famille_formule: "SEMAINE".to_owned(), duree_minutes: 0 },
        LigneBattement { categorie_id: 1, famille_formule: "NUITEE".to_owned(), duree_minutes: 0 },
    ];
    let c = composer_categorie(&ligne, &battements).unwrap();
    assert_eq!(c.temps_remise_en_etat.len(), 2);
    assert_eq!(c.temps_remise_en_etat[0].famille_formule, FamilleFormule::Passage);
    assert_eq!(c.temps_remise_en_etat[1].duree_minutes, 0);
    let autre = LigneCategorie { id: 3, ..ligne };
    assert!(matches!(
        composer_categorie(&autre, &battements),
        Err(ErreurReferentiel::FamilleInconnue(ref c)) if c == "SEMAINE"
    ));
}

#[test]
fn le_tarif_du_type_de_chambre_n_est_annonce_que_si_le_prix_bouge() {
    let avant = composer_formule(&ligne_formule(10, "NUITEE", None), &[], &[], "XOF").unwrap();
    let mut apres = avant.clone();
    assert_eq!(evenements_modification_formule(&avant, &apres), vec![TYPE_FORMULE_MODIFIEE]);
    apres.prix_mineur = 2_000;
    assert_eq!(
        evenements_modification_formule(&avant, &apres),
        vec![TYPE_FORMULE_MODIFIEE, TYPE_CATEGORIE_TARIF_MODIFIE]
    );
    assert_eq!(TYPE_FORMULE_MODIFIEE, "heb.formule.modifiee");
    assert_eq!(TYPE_CATEGORIE_TARIF_MODIFIE, "heb.categorie.tarif_modifie");
}

#[test]
fn une_regle_de_conversion_illisible_fait_refuser_la_liste() {
    // La famille se lit, la règle non : jamais lue comme absente.
    let lignes = vec![ligne_formule(1, "NUITEE", None), ligne_formule(2, "NUITEE", Some("par_lune"))];
    let e = composer_formules(&lignes, &[], &[], "XOF").unwrap_err();
    assert!(matches!(e, ErreurReferentiel::RegleConversionInconnue(ref c) if c == "par_lune"));
}

#[test]
fn les_trois_statuts_de_menage_font_l_aller_retour() {
    assert_eq!(StatutMenage::TOUS.len(), 3);
    for s in StatutMenage::TOUS {
        assert_eq!(StatutMenage::depuis_code(s.code()).unwrap(), s);
    }
}
