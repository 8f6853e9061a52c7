use kaya::synchronisation::consommateurs::{CompteurIdempotent, ErreurConsommation, JournaliseurEvenements};
use kaya::synchronisation::derive::{
    cle_debrayage, constater_derive, OrigineDerive, SensDerive, SignalMuet,
    SEUIL_DERIVE_DEFAUT_SECONDES,
};
use kaya::synchronisation::outbox::{
    cle_sequence, doit_attendre, evenements_a_marquer, tous_ont_reussi, PgOutboxWriter,
};
use kaya::temps::Horodatage;

const SEUIL: u64 = 300;

fn instant(annee: i32, mois: u8, jour: u8, h: u8, m: u8, s: u8) -> Horodatage {
    let date =
        time::Date::from_calendar_date(annee, time::Month::try_from(mois).unwrap(), jour).unwrap();
    let t = date.with_hms(h, m, s).unwrap().assume_utc();
    Horodatage { unix_nanos: t.unix_timestamp_nanos(), decalage_secondes: 0 }
}

fn moins_secondes(h: Horodatage, secondes: i128) -> Horodatage {
    Horodatage { unix_nanos: h.unix_nanos - secondes * 1_000_000_000, ..h }
}

#[test]
fn sous_le_seuil_rien_n_est_constate() {
    let autorite = instant(2026, 8, 3, 18, 0, 0);
    let client = instant(2026, 8, 3, 17, 58, 0);
    assert_eq!(constater_derive(client, autorite, SEUIL), None);
}

#[test]
fn le_seuil_exact_ne_declenche_pas() {
    let autorite = instant(2026, 8, 3, 18, 0, 0);
    let client = instant(2026, 8, 3, 17, 55, 0);
    assert_eq!(constater_derive(client, autorite, SEUIL), None);
}

#[test]
fn un_terminal_en_retard_est_constate() {
    let autorite = instant(2026, 8, 3, 18, 0, 0);
    let client = instant(2026, 8, 3, 17, 50, 0);
    let derive = constater_derive(client, autorite, SEUIL).expect("dérive attendue");
    assert_eq!(derive.sens, SensDerive::Retard);
    assert_eq!(derive.ecart_secondes, 600);
    assert_eq!(derive.ecart_minutes(), 10);
    assert_eq!(derive.seuil_secondes, 300);
}

#[test]
fn un_terminal_en_avance_est_constate_aussi() {
    let autorite = instant(2026, 8, 3, 18, 0, 0);
    let client = instant(2026, 8, 3, 21, 0, 0);
    let derive = constater_derive(client, autorite, SEUIL).expect("dérive attendue");
    assert_eq!(derive.sens, SensDerive::Avance);
    assert_eq!(derive.ecart_secondes, 3 * 3600);
    assert_eq!(derive.ecart_minutes(), 180);
}

#[test]
fn les_deux_sens_sont_symetriques_a_ecart_egal() {
    let autorite = instant(2026, 8, 3, 18, 0, 0);
    let retard = constater_derive(instant(2026, 8, 3, 17, 50, 0), autorite, SEUIL).expect("retard");
    let avance = constater_derive(instant(2026, 8, 3, 18, 10, 0), autorite, SEUIL).expect("avance");
    assert_eq!(retard.ecart_secondes, avance.ecart_secondes);
    assert_ne!(retard.sens, avance.sens);
}

#[test]
fn l_arrondi_des_minutes_va_au_plus_proche() {
    let autorite = instant(2026, 8, 3, 18, 0, 0);
    let client = moins_secondes(autorite, 331);
    let derive = constater_derive(client, autorite, SEUIL).expect("dérive attendue");
    assert_eq!(derive.ecart_minutes(), 6);
}

#[test]
fn les_deux_codes_de_sens_sont_stables() {
    assert_eq!(SensDerive::Retard.code(), "retard");
    assert_eq!(SensDerive::Avance.code(), "avance");
}

#[test]
fn echanger_les_horloges_inverse_seulement_le_sens() {
    let a = instant(2026, 8, 3, 18, 0, 0);
    let b = instant(2026, 8, 3, 18, 7, 30);
    let d1 = constater_derive(a, b, SEUIL).unwrap();
    let d2 = constater_derive(b, a, SEUIL).unwrap();
    assert_eq!(d1.ecart_secondes, 450);
    assert_eq!(d2.ecart_secondes, 450);
    assert_eq!(d1.sens, SensDerive::Retard);
    assert_eq!(d2.sens, SensDerive::Avance);
}

#[test]
fn la_fraction_de_seconde_ne_compte_pas() {
    let autorite = instant(2026, 8, 3, 18, 0, 0);
    let client = Horodatage { unix_nanos: autorite.unix_nanos - 300_999_999_999, ..autorite };
    assert_eq!(constater_derive(client, autorite, SEUIL), None);
}

#[test]
fn la_cle_de_debrayage_a_une_forme_stable() {
    let origine = OrigineDerive {
        tenant_id: 0x0123_4567_89ab_cdef_0123_4567_89ab_cdef,
        compte_id: 1,
        appareil_id: None,
    };
    assert_eq!(
        cle_debrayage(origine),
        "derive:01234567-89ab-cdef-0123-456789abcdef:00000000-0000-0000-0000-000000000001:sans-appareil"
    );
    let avec = OrigineDerive { appareil_id: Some(u128::MAX), ..origine };
    assert!(cle_debrayage(avec).ends_with(":ffffffff-ffff-ffff-ffff-ffffffffffff"));
}

#[test]
fn le_signal_muet_rend_le_seuil_par_defaut() {
    assert_eq!(SignalMuet.seuil(1, 2), SEUIL_DERIVE_DEFAUT_SECONDES);
    assert_eq!(SEUIL_DERIVE_DEFAUT_SECONDES, 300);
}

#[test]
fn un_evenement_presente_trois_fois_compte_une_fois() {
    let mut compteur = CompteurIdempotent::nouveau("test");
    assert!(compteur.consommer(7).is_ok());
    assert!(compteur.consommer(7).is_ok());
    assert!(compteur.consommer(7).is_ok());
    assert!(compteur.consommer(8).is_ok());
    assert_eq!(compteur.distincts(), 2);
    assert!(compteur.a_vu(7));
    assert!(!compteur.a_vu(9));
    assert_eq!(compteur.nom(), "test");
}

#[test]
fn le_journaliseur_compte_chaque_presentation() {
    let mut journal = JournaliseurEvenements::nouveau();
    assert!(journal.consommer(1).is_ok());
    assert!(journal.consommer(1).is_ok());
    assert_eq!(journal.presentations(), 2);
}

#[test]
fn l_erreur_de_consommation_porte_son_message() {
    let e = ErreurConsommation::Traitement {
        consommateur: "compteur".to_owned(),
        motif: "panne".to_owned(),
    };
    assert_eq!(e.message(), "le consommateur « compteur » a échoué : panne");
}

#[test]
fn la_sequence_suit_l_etablissement_sinon_le_tenant() {
    assert_eq!(cle_sequence(Some(5), 9), 5);
    assert_eq!(cle_sequence(None, 9), 9);
}

#[test]
fn seuls_les_evenements_publies_sont_marques() {
    assert!(tous_ont_reussi(&[true, true]));
    assert!(!tous_ont_reussi(&[true, false]));
    assert!(tous_ont_reussi(&[]));
    assert_eq!(evenements_a_marquer(&[10, 11, 12], &[true, false, true]), vec![10, 12]);
    assert!(doit_attendre(Some(0)));
    assert!(!doit_attendre(Some(3)));
    let _ = PgOutboxWriter::nouveau();
}

#[test]
fn une_suite_d_evenements_repetes_laisse_ses_seuls_identifiants_distincts() {
    let mut compteur = CompteurIdempotent::nouveau("suite");
    for id in [7u128, 3, 7, 7, 9, 3] {
        assert!(compteur.consommer(id).is_ok());
    }
    assert_eq!(compteur.distincts(), 3);
    assert!(compteur.a_vu(7) && compteur.a_vu(3) && compteur.a_vu(9));
    assert!(!compteur.a_vu(8));
    // Rejouer toute la suite ne change plus rien.
    for id in [7u128, 3, 7, 7, 9, 3] {
        assert!(compteur.consommer(id).is_ok());
    }
    assert_eq!(compteur.distincts(), 3);
}
