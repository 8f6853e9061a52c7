use kaya::etablissements::configuration::ecriture_change;
use kaya::etablissements::branding::{
    champs_touches, couleur_valide, fusionner, rendre_document_test, verifier_couleur,
    BrandingNiveau, ErreurBranding, LOGO_TAILLE_MAX, MENTION_NON_FISCALE,
};
use kaya::etablissements::configuration::{
    valeur_compatible, valider_ecriture, verifier_niveau, EcrireParametre, EntreeCatalogue,
    ErreurParametre, GenreValeur, Repartition,
};
use kaya::etablissements::etablissement::{
    classement_depuis_requete, devise_valide, fuseau_connu, fusionner_modification,
    planifier_modification, valider_champs, valider_creation, CreerEtablissement,
    ErreurEtablissement, EtablissementVue, ModifierEtablissement, AVERTISSEMENT_FUSEAU,
};
use kaya::etablissements::modules::{
    conclure_bascule, decider_bascule, service_actif, verifier_capacite, verifier_module,
    verifier_obstacles, verifier_profil, CapaciteReferentiel, DecisionBascule, ErreurModules,
    EtatService, IssueBascule, ModuleReferentiel, ProfilReferentiel, TYPE_ACTIVE, TYPE_DESACTIVE,
};
use kaya::etablissements::note::{nettoyer_texte, ErreurNote, TEXTE_MAX};
use kaya::etablissements::points_de_vente::{
    libelle_avant, nettoyer_nom, planifier_modification as planifier_pdv, verifier_libelles,
    vraiment_creees, vraiment_desactivees, ErreurPointDeVente, ModifierPointDeVente,
    PointDeVenteVue, TableDemandee, TablePosee, TableVue,
};
use kaya::etablissements::{
    portee_depuis_code, portee_depuis_rang, Classement, Issue, Obstacle, Portee,
};
use kaya::temps::Horodatage;

// ---------------------------------------------------------------------------------------------
//  L'établissement
// ---------------------------------------------------------------------------------------------

#[test]
fn un_fuseau_se_verifie_par_sa_forme() {
    assert!(fuseau_connu("UTC"));
    assert!(fuseau_connu(" Africa/Abidjan "));
    assert!(fuseau_connu("America/Argentina/Buenos_Aires"));
    assert!(fuseau_connu("Etc/GMT+1"));
    assert!(!fuseau_connu(""));
    assert!(!fuseau_connu("Abidjan"));
    assert!(!fuseau_connu("africa/Abidjan"));
    assert!(!fuseau_connu("/Abidjan"));
    assert!(!fuseau_connu("Africa/"));
    assert!(!fuseau_connu("Africa/Abi djan"));
    assert!(!fuseau_connu("Afrique/Côte"));
}

#[test]
fn une_devise_est_trois_lettres_majuscules() {
    assert!(devise_valide("XOF"));
    assert!(!devise_valide("xof"));
    assert!(!devise_valide("XO"));
    assert!(!devise_valide("XOFF"));
    assert!(!devise_valide("XÖF"));
}

#[test]
fn les_champs_sont_valides_dans_l_ordre_et_nommes() {
    assert!(valider_champs("Hôtel", "Abidjan", "Africa/Abidjan", "XOF", None).is_ok());
    assert!(matches!(valider_champs("  ", "x", "UTC", "XOF", None), Err(ErreurEtablissement::NomInvalide)));
    let long = "n".repeat(201);
    assert!(matches!(valider_champs(&long, "x", "UTC", "XOF", None), Err(ErreurEtablissement::NomInvalide)));
    assert!(valider_champs(&"n".repeat(200), "x", "UTC", "XOF", None).is_ok());
    assert!(matches!(valider_champs("a", " ", "UTC", "XOF", None), Err(ErreurEtablissement::CommuneInvalide)));
    match valider_champs("a", "b", "Abidjan", "XOF", None) {
        Err(ErreurEtablissement::FuseauInconnu(v)) => assert_eq!(v, "Abidjan"),
        autre => panic!("refus attendu, reçu {autre:?}"),
    }
    let e = valider_champs("a", "b", "UTC", "F", None).unwrap_err();
    assert_eq!(e.code(), "devise_invalide");
    assert_eq!(e.valeur(), Some("F".to_owned()));
    assert!(matches!(valider_champs("a", "b", "UTC", "XOF", Some(" ")), Err(ErreurEtablissement::NccInvalide)));
}

#[test]
fn le_classement_saisi_est_refuse_en_nommant_l_incoherence() {
    assert_eq!(classement_depuis_requete("ETOILES", Some(3)).unwrap(), Classement::Etoiles(3));
    assert_eq!(classement_depuis_requete("NON_CLASSE", None).unwrap(), Classement::NonClasse);
    assert_eq!(classement_depuis_requete("RESIDENCE_MEUBLEE", None).unwrap(), Classement::ResidenceMeublee);
    let e = classement_depuis_requete("ETOILES", Some(0)).unwrap_err();
    assert_eq!(e.code(), "classement_incoherent");
    assert_eq!(e.valeur().unwrap(), "ETOILES sans nombre d'étoiles strictement positif");
    let e = classement_depuis_requete("NON_CLASSE", Some(2)).unwrap_err();
    assert_eq!(e.valeur().unwrap(), "NON_CLASSE avec un nombre d'étoiles");
    let e = classement_depuis_requete("PALACE", None).unwrap_err();
    assert_eq!(e.valeur().unwrap(), "PALACE");
}

#[test]
fn un_classement_se_relit_depuis_ses_colonnes() {
    for c in [Classement::Etoiles(4), Classement::NonClasse, Classement::ResidenceMeublee] {
        assert_eq!(Classement::depuis_colonnes(c.code(), c.etoiles().map(i16::from)), Some(c));
    }
    assert_eq!(Classement::depuis_colonnes("ETOILES", None), None);
    assert_eq!(Classement::depuis_colonnes("ETOILES", Some(300)), None);
    assert_eq!(Classement::depuis_colonnes("NON_CLASSE", Some(1)), None);
}

fn demande_creation() -> CreerEtablissement {
    CreerEtablissement {
        id: 1,
        nom: "  Hôtel Deloria ".to_owned(),
        juridiction: "CI".to_owned(),
        classement: Classement::Etoiles(2),
        commune: " Abengourou".to_owned(),
        fuseau_horaire: "Africa/Abidjan".to_owned(),
        devise: "XOF".to_owned(),
        adresse: Some("   ".to_owned()),
        ncc: Some(" 123 ".to_owned()),
    }
}

#[test]
fn la_creation_rogne_et_retire_les_champs_vides() {
    let c = valider_creation(demande_creation()).unwrap();
    assert_eq!(c.nom, "Hôtel Deloria");
    assert_eq!(c.commune, "Abengourou");
    assert_eq!(c.adresse, None);
    assert_eq!(c.ncc.as_deref(), Some("123"));
    let refus = valider_creation(CreerEtablissement { ncc: Some("  ".to_owned()), ..demande_creation() });
    assert!(matches!(refus, Err(ErreurEtablissement::NccInvalide)));
}

fn avant() -> EtablissementVue {
    let t = Horodatage { unix_nanos: 0, decalage_secondes: 0 };
    EtablissementVue {
        id: 1,
        nom: "Deloria".to_owned(),
        juridiction: "CI".to_owned(),
        classement: "ETOILES".to_owned(),
        etoiles: Some(2),
        commune: "Abengourou".to_owned(),
        fuseau_horaire: "Africa/Abidjan".to_owned(),
        devise: "XOF".to_owned(),
        adresse: None,
        ncc: None,
        cree_le: t,
        modifie_le: t,
    }
}

fn rien() -> ModifierEtablissement {
    ModifierEtablissement {
        nom: None,
        classement: None,
        commune: None,
        fuseau_horaire: None,
        devise: None,
        adresse: None,
        ncc: None,
    }
}

#[test]
fn une_modification_sans_changement_n_ecrit_rien() {
    let a = avant();
    let f = fusionner_modification(&a, &rien()).unwrap();
    let plan = planifier_modification(&a, &f, 0).unwrap();
    assert!(plan.rien_a_ecrire());
    let meme = ModifierEtablissement { nom: Some("Deloria".to_owned()), ..rien() };
    let f = fusionner_modification(&a, &meme).unwrap();
    assert!(planifier_modification(&a, &f, 5).unwrap().rien_a_ecrire());
}

#[test]
fn une_modification_liste_les_champs_changes_et_avertit_du_fuseau() {
    let a = avant();
    let demande = ModifierEtablissement {
        nom: Some("Deloria Palace".to_owned()),
        classement: Some(Classement::Etoiles(3)),
        fuseau_horaire: Some("UTC".to_owned()),
        adresse: Some("Rue 12".to_owned()),
        ..rien()
    };
    let f = fusionner_modification(&a, &demande).unwrap();
    let plan = planifier_modification(&a, &f, 0).unwrap();
    let champs: Vec<&str> = plan.changements.champs.iter().map(|c| c.champ).collect();
    assert_eq!(champs, vec!["nom", "adresse"]);
    assert_eq!(plan.changements.champs[0].avant.as_deref(), Some("Deloria"));
    assert_eq!(plan.changements.champs[1].avant, None);
    assert_eq!(plan.changements.champs[1].apres.as_deref(), Some("Rue 12"));
    assert!(plan.changements.contient("adresse"));
    assert!(!plan.changements.contient("devise"));
    assert!(!plan.changements.est_vide());
    assert!(plan.classement_change);
    assert!(plan.fuseau_change);
    assert_eq!(plan.avertissement, Some(AVERTISSEMENT_FUSEAU));
    assert!(!plan.rien_a_ecrire());
}

#[test]
fn la_devise_se_fige_apres_la_premiere_operation() {
    let a = avant();
    let demande = ModifierEtablissement { devise: Some("EUR".to_owned()), ..rien() };
    let f = fusionner_modification(&a, &demande).unwrap();
    assert!(matches!(planifier_modification(&a, &f, 1), Err(ErreurEtablissement::DeviseFigee)));
    let plan = planifier_modification(&a, &f, 0).unwrap();
    assert_eq!(plan.changements.champs[0].champ, "devise");
}

#[test]
fn un_classement_illisible_en_base_est_nomme() {
    let a = EtablissementVue { classement: "PALACE".to_owned(), ..avant() };
    match fusionner_modification(&a, &rien()) {
        Err(ErreurEtablissement::ClassementIncoherent(v)) => assert_eq!(v, "PALACE"),
        autre => panic!("refus attendu, reçu {autre:?}"),
    }
    let demande = ModifierEtablissement { commune: Some(" ".to_owned()), ..rien() };
    assert!(matches!(fusionner_modification(&avant(), &demande), Err(ErreurEtablissement::CommuneInvalide)));
}

#[test]
fn les_codes_d_erreur_de_l_etablissement_sont_stables() {
    assert_eq!(ErreurEtablissement::Inconnu.code(), "etablissement_inconnu");
    assert_eq!(ErreurEtablissement::DeviseFigee.code(), "devise_figee");
    assert_eq!(ErreurEtablissement::Interne("x".to_owned()).code(), "erreur_interne");
    assert_eq!(ErreurEtablissement::NomInvalide.valeur(), None);
}

// ---------------------------------------------------------------------------------------------
//  La portée et la configuration
// ---------------------------------------------------------------------------------------------

#[test]
fn chaque_portee_se_relit_depuis_son_code_et_son_rang() {
    for p in [Portee::Tenant, Portee::Etablissement, Portee::Module, Portee::PointDeVente] {
        assert_eq!(portee_depuis_code(p.code()), p);
        assert_eq!(portee_depuis_rang(i32::from(p.rang())), p);
    }
    assert_eq!(portee_depuis_code("GALAXIE"), Portee::Tenant);
    assert_eq!(portee_depuis_rang(9), Portee::Tenant);
    assert_eq!(Portee::PointDeVente.rang(), 3);
}

#[test]
fn le_type_d_une_valeur_est_strict() {
    assert!(valeur_compatible("MONTANT_MINEUR", GenreValeur::Entier));
    assert!(!valeur_compatible("MONTANT_MINEUR", GenreValeur::AutreNombre));
    assert!(valeur_compatible("HEURE_LOCALE", GenreValeur::Texte));
    assert!(valeur_compatible("BOOLEEN", GenreValeur::Booleen));
    assert!(valeur_compatible("BAREME", GenreValeur::Tableau));
    assert!(valeur_compatible("BAREME", GenreValeur::Objet));
    assert!(!valeur_compatible("BAREME", GenreValeur::Texte));
    assert!(!valeur_compatible("INCONNU", GenreValeur::Nul));
}

fn entree(plus_basse: &str, type_valeur: &str) -> Option<EntreeCatalogue> {
    Some(EntreeCatalogue {
        cle: "sync.seuil".to_owned(),
        type_valeur: type_valeur.to_owned(),
        portee_la_plus_basse: plus_basse.to_owned(),
        story: "SYN-01".to_owned(),
        libelle_cle: "l".to_owned(),
        description_cle: "d".to_owned(),
    })
}

fn ecriture(portee: Portee, portee_id: Option<u128>, genre: GenreValeur) -> EcrireParametre {
    EcrireParametre {
        id: 1,
        cle: "sync.seuil".to_owned(),
        genre,
        valeur_texte: "1500.5".to_owned(),
        portee,
        portee_id,
    }
}

#[test]
fn une_ecriture_de_parametre_est_validee_contre_le_catalogue() {
    let r = valider_ecriture(&entree("MODULE", "ENTIER"), &ecriture(Portee::Etablissement, Some(7), GenreValeur::Entier));
    assert_eq!(r.unwrap(), Repartition { etablissement_id: Some(7), module_id: None, point_de_vente_id: None });
    let r = valider_ecriture(&entree("ETABLISSEMENT", "ENTIER"), &ecriture(Portee::Tenant, None, GenreValeur::Entier));
    assert_eq!(r.unwrap(), Repartition { etablissement_id: None, module_id: None, point_de_vente_id: None });
    let e = valider_ecriture(&None, &ecriture(Portee::Tenant, None, GenreValeur::Entier)).unwrap_err();
    assert_eq!(e.code(), "cle_hors_catalogue");
    assert_eq!(e.valeur().as_deref(), Some("sync.seuil"));
    let e = valider_ecriture(&entree("ETABLISSEMENT", "ENTIER"), &ecriture(Portee::PointDeVente, Some(1), GenreValeur::Entier)).unwrap_err();
    assert!(matches!(e, ErreurParametre::PorteeInterdite { ref portee, ref plus_basse, .. } if portee == "POINT_DE_VENTE" && plus_basse == "ETABLISSEMENT"));
    let e = valider_ecriture(&entree("MODULE", "ENTIER"), &ecriture(Portee::Module, Some(1), GenreValeur::AutreNombre)).unwrap_err();
    assert_eq!(e.valeur().as_deref(), Some("1500.5"));
    let e = valider_ecriture(&entree("MODULE", "ENTIER"), &ecriture(Portee::Module, None, GenreValeur::Entier)).unwrap_err();
    assert!(matches!(e, ErreurParametre::PorteeIdManquant(ref p) if p == "MODULE"));
    assert!(matches!(verifier_niveau(Portee::Module, false), Err(ErreurParametre::NiveauInconnu)));
    assert!(verifier_niveau(Portee::Tenant, false).is_ok());
}

// ---------------------------------------------------------------------------------------------
//  L'identité visuelle
// ---------------------------------------------------------------------------------------------

fn niveau() -> BrandingNiveau {
    BrandingNiveau {
        logo_objet_cle: None,
        couleur_primaire: None,
        entete_document: None,
        pied_document: None,
        mentions_legales: None,
        coordonnees: None,
    }
}

#[test]
fn une_couleur_est_au_format_hexadecimal() {
    assert!(couleur_valide("#1A2b3C"));
    assert!(!couleur_valide("1A2B3C"));
    assert!(!couleur_valide("#1A2B3"));
    assert!(!couleur_valide("#1A2B3G"));
    assert!(!couleur_valide("#1A2B3É"));
    let mauvaise = BrandingNiveau { couleur_primaire: Some("rouge".to_owned()), ..niveau() };
    let e = verifier_couleur(&mauvaise).unwrap_err();
    assert_eq!(e.code(), "couleur_invalide");
    assert_eq!(e.valeur().as_deref(), Some("rouge"));
    assert!(verifier_couleur(&niveau()).is_ok());
}

#[test]
fn l_etablissement_surcharge_le_tenant_champ_par_champ() {
    let tenant = BrandingNiveau {
        couleur_primaire: Some("#000000".to_owned()),
        pied_document: Some("Merci".to_owned()),
        ..niveau()
    };
    let etablissement = BrandingNiveau { couleur_primaire: Some("#FFFFFF".to_owned()), ..niveau() };
    let r = fusionner(Some(tenant.clone()), Some(etablissement));
    let c = r.couleur_primaire.unwrap();
    assert_eq!((c.valeur.as_str(), c.origine.as_str()), ("#FFFFFF", "ETABLISSEMENT"));
    let p = r.pied_document.unwrap();
    assert_eq!((p.valeur.as_str(), p.origine.as_str()), ("Merci", "TENANT"));
    assert!(r.logo_objet_cle.is_none());
    let seul = fusionner(Some(tenant), None);
    assert_eq!(seul.couleur_primaire.unwrap().origine, "TENANT");
}

#[test]
fn seuls_les_champs_changes_sont_touches() {
    let avant = BrandingNiveau { coordonnees: Some("07".to_owned()), ..niveau() };
    let apres = BrandingNiveau {
        coordonnees: Some("07".to_owned()),
        entete_document: Some("Deloria".to_owned()),
        ..niveau()
    };
    assert_eq!(champs_touches(Some(&avant), &apres), vec!["entete_document"]);
    assert_eq!(champs_touches(None, &apres), vec!["entete_document", "coordonnees"]);
    assert!(champs_touches(Some(&apres), &apres).is_empty());
}

#[test]
fn le_document_de_test_finit_toujours_par_la_mention_non_fiscale() {
    let identite = fusionner(
        Some(BrandingNiveau {
            entete_document: Some("DELORIA".to_owned()),
            coordonnees: Some("Abengourou".to_owned()),
            mentions_legales: Some("RCCM 1".to_owned()),
            ..niveau()
        }),
        None,
    );
    let doc = rendre_document_test(&identite, "Hôtel Deloria");
    assert_eq!(
        doc,
        "DELORIA\nHôtel Deloria\nAbengourou\n\n--- Aperçu de votre identité visuelle ---\n\nRCCM 1\n\nDocument non fiscal — ne tient pas lieu de facture\n"
    );
    let vide = rendre_document_test(&fusionner(None, None), "X");
    assert!(vide.ends_with(&format!("\n{MENTION_NON_FISCALE}\n")));
    assert!(vide.starts_with("\nX\n"));
}

#[test]
fn un_logo_trop_volumineux_nomme_sa_taille() {
    let e = ErreurBranding::LogoTropVolumineux { taille: 600_000, maximum: LOGO_TAILLE_MAX };
    assert_eq!(e.code(), "logo_trop_volumineux");
    assert_eq!(e.valeur().as_deref(), Some("600000"));
    assert_eq!(LOGO_TAILLE_MAX, 524_288);
}

// ---------------------------------------------------------------------------------------------
//  Les modules
// ---------------------------------------------------------------------------------------------

#[test]
fn un_module_inconnu_et_un_module_non_implemente_sont_distincts() {
    let e = verifier_module("PRESSING", &None).unwrap_err();
    assert_eq!((e.code(), e.valeur()), ("module_inconnu", Some("PRESSING".to_owned())));
    let m = ModuleReferentiel { code: "BAR".to_owned(), implementee: false, libelle_cle: "b".to_owned(), ordre: 1 };
    assert_eq!(verifier_module("BAR", &Some(m.clone())).unwrap_err().code(), "module_non_implemente");
    assert!(verifier_module("BAR", &Some(ModuleReferentiel { implementee: true, ..m })).is_ok());
}

#[test]
fn la_reactivation_reprend_la_meme_ligne() {
    let etat = EtatService { id: 42, actif: false };
    assert_eq!(decider_bascule(true, Some(etat)), DecisionBascule::Reactiver { service_id: 42 });
    assert_eq!(decider_bascule(true, None), DecisionBascule::Activer);
    assert_eq!(decider_bascule(false, None), DecisionBascule::RienAFaire);
    assert_eq!(decider_bascule(false, Some(etat)), DecisionBascule::Desactiver { service_id: 42 });
}

#[test]
fn une_bascule_sans_transition_n_emet_rien() {
    let (issue, evenement) = conclure_bascule(DecisionBascule::Reactiver { service_id: 42 }, false, 0);
    assert_eq!(issue, IssueBascule { issue: Issue::DejaPresente, transition: false, service_id: 42 });
    assert_eq!(evenement, None);
    let (issue, evenement) = conclure_bascule(DecisionBascule::Activer, true, 7);
    assert_eq!(issue, IssueBascule { issue: Issue::Creee, transition: true, service_id: 7 });
    assert_eq!(evenement, Some(TYPE_ACTIVE));
    let (_, evenement) = conclure_bascule(DecisionBascule::Desactiver { service_id: 1 }, true, 0);
    assert_eq!(evenement, Some(TYPE_DESACTIVE));
    let (issue, evenement) = conclure_bascule(DecisionBascule::RienAFaire, true, 9);
    assert_eq!(issue, IssueBascule { issue: Issue::DejaPresente, transition: false, service_id: 9 });
    assert_eq!(evenement, None);
}

#[test]
fn une_desactivation_bloquee_nomme_ses_obstacles() {
    assert!(verifier_obstacles(vec![]).is_ok());
    let o = Obstacle { module_code: "HEBERGEMENT".to_owned(), motif_cle: "sejours_en_cours".to_owned(), nombre: 3 };
    let e = verifier_obstacles(vec![o.clone()]).unwrap_err();
    assert_eq!(e.code(), "desactivation_bloquee");
    assert_eq!(e.obstacles(), &[o][..]);
    assert!(ErreurModules::EtablissementInconnu.obstacles().is_empty());
}

#[test]
fn une_capacite_se_declare_sur_un_service_actif_avec_un_profil_implemente() {
    assert_eq!(service_actif("HEBERGEMENT", Some(EtatService { id: 5, actif: true })).unwrap(), 5);
    assert_eq!(service_actif("HEBERGEMENT", Some(EtatService { id: 5, actif: false })).unwrap_err().code(), "module_non_actif");
    assert_eq!(verifier_capacite("STOCK", &None).unwrap_err().code(), "capacite_inconnue");
    let c = CapaciteReferentiel { code: "STOCK".to_owned(), implementee: false, libelle_cle: "s".to_owned(), ordre: 1 };
    assert_eq!(verifier_capacite("STOCK", &Some(c)).unwrap_err().code(), "capacite_non_implementee");
    let p = ProfilReferentiel {
        code: "DETAILLE".to_owned(),
        implementee: false,
        libelle_cle: "p".to_owned(),
        motif_refus_cle: Some("profil.detaille.plus_tard".to_owned()),
        ordre: 2,
    };
    let e = verifier_profil("DETAILLE", &Some(p.clone())).unwrap_err();
    assert_eq!(e.code(), "profil_non_implemente");
    assert_eq!(e.motif_cle(), Some("profil.detaille.plus_tard"));
    assert_eq!(e.valeur().as_deref(), Some("DETAILLE"));
    let sans_motif = verifier_profil("DETAILLE", &Some(ProfilReferentiel { motif_refus_cle: None, ..p })).unwrap_err();
    assert_eq!(sans_motif.motif_cle(), Some(""));
    assert_eq!(verifier_profil("X", &None).unwrap_err().code(), "profil_inconnu");
}

// ---------------------------------------------------------------------------------------------
//  Les notes et les points de vente
// ---------------------------------------------------------------------------------------------

#[test]
fn le_texte_d_une_note_est_rogne_et_borne() {
    assert_eq!(nettoyer_texte("  Fuite au 12  ").unwrap(), "Fuite au 12");
    assert!(matches!(nettoyer_texte("   "), Err(ErreurNote::TexteInvalide)));
    assert!(nettoyer_texte(&"é".repeat(TEXTE_MAX)).is_ok());
    assert!(nettoyer_texte(&"é".repeat(TEXTE_MAX + 1)).is_err());
}

#[test]
fn le_nom_d_un_point_de_vente_tient_sur_un_ticket() {
    assert_eq!(nettoyer_nom(" Bar ").unwrap(), "Bar");
    assert_eq!(nettoyer_nom(&"b".repeat(121)).unwrap_err().code(), "nom_invalide");
    assert_eq!(ErreurPointDeVente::Inconnu.code(), "point_de_vente_inconnu");
    assert_eq!(ErreurPointDeVente::NomDejaPris("Bar".to_owned()).valeur().as_deref(), Some("Bar"));
}

fn pdv() -> PointDeVenteVue {
    PointDeVenteVue {
        id: 1,
        etablissement_id: 2,
        module_code: "BAR".to_owned(),
        nom: "Bar".to_owned(),
        caisse_id: None,
        actif: true,
        tables: vec![TableVue { id: 10, libelle: "T1".to_owned() }],
        cree_le: Horodatage { unix_nanos: 0, decalage_secondes: 0 },
    }
}

#[test]
fn une_modification_de_point_de_vente_sans_changement_n_ecrit_rien() {
    let rien = ModifierPointDeVente { nom: Some(" Bar ".to_owned()), caisse_id: None, actif: None };
    assert!(planifier_pdv(&pdv(), &rien).unwrap().is_none());
    let m = ModifierPointDeVente { nom: None, caisse_id: Some(9), actif: Some(false) };
    let plan = planifier_pdv(&pdv(), &m).unwrap().unwrap();
    assert_eq!((plan.nom.as_str(), plan.caisse_id, plan.actif), ("Bar", Some(9), false));
    let vide = ModifierPointDeVente { nom: Some("  ".to_owned()), caisse_id: None, actif: None };
    assert!(matches!(planifier_pdv(&pdv(), &vide), Err(ErreurPointDeVente::NomInvalide)));
}

#[test]
fn un_plan_de_salle_reenregistre_a_l_identique_n_emet_rien() {
    let avant = vec![TableVue { id: 10, libelle: "T1".to_owned() }, TableVue { id: 11, libelle: "T2".to_owned() }];
    let posees = vec![TablePosee { id: 10, libelle: "T1".to_owned() }, TablePosee { id: 11, libelle: "T2".to_owned() }];
    assert!(vraiment_desactivees(&[10, 11], &posees).is_empty());
    assert!(vraiment_creees(&posees, &avant).is_empty());
}

#[test]
fn le_remplacement_des_tables_distingue_creees_et_desactivees() {
    let avant = vec![TableVue { id: 10, libelle: "T1".to_owned() }, TableVue { id: 11, libelle: "T2".to_owned() }];
    let posees = vec![TablePosee { id: 11, libelle: "T2".to_owned() }, TablePosee { id: 12, libelle: "Terrasse".to_owned() }];
    assert_eq!(vraiment_desactivees(&[10, 11], &posees), vec![10]);
    let creees = vraiment_creees(&posees, &avant);
    assert_eq!(creees.len(), 1);
    assert_eq!((creees[0].id, creees[0].libelle.as_str()), (12, "Terrasse"));
    assert_eq!(libelle_avant(&avant, 10).as_deref(), Some("T1"));
    assert_eq!(libelle_avant(&avant, 99), None);
    // Une liste vide fait du point de vente un comptoir : toutes les tables sont désactivées.
    assert_eq!(vraiment_desactivees(&[10, 11], &[]), vec![10, 11]);
}

#[test]
fn un_libelle_de_table_vide_est_refuse() {
    let ok = vec![TableDemandee { id: 1, libelle: "T1".to_owned() }];
    assert!(verifier_libelles(&ok).is_ok());
    let ko = vec![TableDemandee { id: 1, libelle: "T1".to_owned() }, TableDemandee { id: 2, libelle: " ".to_owned() }];
    assert!(matches!(verifier_libelles(&ko), Err(ErreurPointDeVente::LibelleInvalide)));
    assert!(verifier_libelles(&[]).is_ok());
}

#[test]
fn une_ecriture_identique_n_emet_rien() {
    assert!(ecriture_change(None, "480"));
    assert!(!ecriture_change(Some("480"), "480"));
    assert!(ecriture_change(Some("480"), "540"));
    assert!(ecriture_change(Some("{\"a\":1}"), "{\"a\":2}"));
}
