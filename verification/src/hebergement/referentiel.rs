//! Le référentiel de l'offre : familles de formule, règles de conversion de la taxe, statuts de
//! ménage, heures murales, et les validations que la base ne porte pas.

use vstd::prelude::*;
use crate::texte::{
    car_chiffre, chiffre, decimal_signe, ecrire_decimal_signe, egal, est_blanc, est_chiffre, pousser,
    rogne, rogner, valeur_chiffre, valeur_decimale,
};

verus! {

/// Les quatre façons de louer une unité.
#[derive(Debug, Clone, Copy, PartialEq, Eq, Structural)]
pub enum FamilleFormule {
    /// La nuit, avec heure d'arrivée et de départ standard.
    Nuitee,
    /// À l'heure, avec un barème de paliers et des heures supplémentaires.
    Passage,
    /// Des plages fixes, non fractionnables.
    DemiJournee,
    /// Au mois — une résidence meublée.
    Mensuel,
}

impl FamilleFormule {
    /// Les quatre familles, dans l'ordre de déclaration.
    pub const TOUTES: [FamilleFormule; 4] = [
        FamilleFormule::Nuitee,
        FamilleFormule::Passage,
        FamilleFormule::DemiJournee,
        FamilleFormule::Mensuel,
    ];

    /// Le code stocké en base.
    pub open spec fn code_spec(self) -> Seq<char> {
        match self {
            FamilleFormule::Nuitee => "NUITEE"@,
            FamilleFormule::Passage => "PASSAGE"@,
            FamilleFormule::DemiJournee => "DEMI_JOURNEE"@,
            FamilleFormule::Mensuel => "MENSUEL"@,
        }
    }

    /// Le code stocké en base.
    pub fn code(self) -> (r: &'static str)
        ensures
            r@ == self.code_spec(),
    {
        match self {
            FamilleFormule::Nuitee => "NUITEE",
            FamilleFormule::Passage => "PASSAGE",
            FamilleFormule::DemiJournee => "DEMI_JOURNEE",
            FamilleFormule::Mensuel => "MENSUEL",
        }
    }
}

/// La famille dont `c` est le code, s'il y en a une.
pub open spec fn famille_de_code(c: Seq<char>) -> Option<FamilleFormule> {
    if c == FamilleFormule::Nuitee.code_spec() {
        Some(FamilleFormule::Nuitee)
    } else if c == FamilleFormule::Passage.code_spec() {
        Some(FamilleFormule::Passage)
    } else if c == FamilleFormule::DemiJournee.code_spec() {
        Some(FamilleFormule::DemiJournee)
    } else if c == FamilleFormule::Mensuel.code_spec() {
        Some(FamilleFormule::Mensuel)
    } else {
        None
    }
}

/// Chaque famille se relit depuis son code.
pub proof fn loi_famille_aller_retour(f: FamilleFormule)
    ensures
        famille_de_code(f.code_spec()) == Some(f),
{
    reveal_strlit("NUITEE");
    reveal_strlit("PASSAGE");
    reveal_strlit("DEMI_JOURNEE");
    reveal_strlit("MENSUEL");
    assert("NUITEE"@.len() == 6);
    assert("PASSAGE"@.len() == 7);
    assert("DEMI_JOURNEE"@.len() == 12);
    assert("MENSUEL"@.len() == 7);
    assert("PASSAGE"@[0] == 'P' && "MENSUEL"@[0] == 'M');
    assert("NUITEE"@ != "PASSAGE"@);
    assert("NUITEE"@ != "DEMI_JOURNEE"@);
    assert("NUITEE"@ != "MENSUEL"@);
    assert("PASSAGE"@ != "DEMI_JOURNEE"@);
    assert("PASSAGE"@ != "MENSUEL"@);
    assert("DEMI_JOURNEE"@ != "MENSUEL"@);
}


impl FamilleFormule {
    /// Relit une famille depuis son code stocké en base ; un code inconnu est **refusé et
    /// nommé**, jamais rangé dans une famille par défaut.
    pub fn depuis_code(code: &str) -> (r: Result<FamilleFormule, ErreurReferentiel>)
        ensures
            match famille_de_code(code@) {
                Some(f) => r == Ok::<FamilleFormule, ErreurReferentiel>(f),
                None => r matches Err(ErreurReferentiel::FamilleInconnue(s)) && s@ == code@,
            },
    {
        if egal(code, "NUITEE") {
            Ok(FamilleFormule::Nuitee)
        } else if egal(code, "PASSAGE") {
            Ok(FamilleFormule::Passage)
        } else if egal(code, "DEMI_JOURNEE") {
            Ok(FamilleFormule::DemiJournee)
        } else if egal(code, "MENSUEL") {
            Ok(FamilleFormule::Mensuel)
        } else {
            Err(ErreurReferentiel::FamilleInconnue(code.to_owned()))
        }
    }
}

// =================================================================================================
//  La règle de conversion de la taxe — un paramètre, jamais un calcul
// =================================================================================================

/// Comment la taxe de nuitée se compte sur une occupation de plusieurs nuits.
///
/// Ce type est un **paramètre** stocké et exposé ; aucune fonction de ce crate ne l'interprète.
#[derive(Debug, Clone, Copy, PartialEq, Eq, Structural)]
pub enum RegleConversionTaxe {
    /// La formule est assujettie, mais aucune conversion ne s'applique.
    Aucune,
    /// Une seule taxe pour tout le séjour.
    UneNuiteeParOccupation,
    /// Une taxe par nuit.
    AuProrata,
    /// Au-delà d'un seuil de durée, une nuitée est due.
    SeuilHoraire,
}

impl RegleConversionTaxe {
    /// Les quatre règles, dans l'ordre de déclaration.
    pub const TOUTES: [RegleConversionTaxe; 4] = [
        RegleConversionTaxe::Aucune,
        RegleConversionTaxe::UneNuiteeParOccupation,
        RegleConversionTaxe::AuProrata,
        RegleConversionTaxe::SeuilHoraire,
    ];

    pub open spec fn code_spec(self) -> Seq<char> {
        match self {
            RegleConversionTaxe::Aucune => "aucune"@,
            RegleConversionTaxe::UneNuiteeParOccupation => "une_nuitee_par_occupation"@,
            RegleConversionTaxe::AuProrata => "au_prorata"@,
            RegleConversionTaxe::SeuilHoraire => "seuil_horaire"@,
        }
    }

    /// Le code stocké en base.
    pub fn code(self) -> (r: &'static str)
        ensures
            r@ == self.code_spec(),
    {
        match self {
            RegleConversionTaxe::Aucune => "aucune",
            RegleConversionTaxe::UneNuiteeParOccupation => "une_nuitee_par_occupation",
            RegleConversionTaxe::AuProrata => "au_prorata",
            RegleConversionTaxe::SeuilHoraire => "seuil_horaire",
        }
    }

    /// Relit une règle depuis son code ; un code inconnu est refusé et nommé.
    pub fn depuis_code(code: &str) -> (r: Result<RegleConversionTaxe, ErreurReferentiel>)
        ensures
            match regle_de_code(code@) {
                Some(g) => r == Ok::<RegleConversionTaxe, ErreurReferentiel>(g),
                None => r matches Err(ErreurReferentiel::RegleConversionInconnue(s)) && s@
                    == code@,
            },
    {
        if egal(code, "aucune") {
            Ok(RegleConversionTaxe::Aucune)
        } else if egal(code, "une_nuitee_par_occupation") {
            Ok(RegleConversionTaxe::UneNuiteeParOccupation)
        } else if egal(code, "au_prorata") {
            Ok(RegleConversionTaxe::AuProrata)
        } else if egal(code, "seuil_horaire") {
            Ok(RegleConversionTaxe::SeuilHoraire)
        } else {
            Err(ErreurReferentiel::RegleConversionInconnue(code.to_owned()))
        }
    }
}

/// La règle dont `c` est le code, s'il y en a une.
pub open spec fn regle_de_code(c: Seq<char>) -> Option<RegleConversionTaxe> {
    if c == RegleConversionTaxe::Aucune.code_spec() {
        Some(RegleConversionTaxe::Aucune)
    } else if c == RegleConversionTaxe::UneNuiteeParOccupation.code_spec() {
        Some(RegleConversionTaxe::UneNuiteeParOccupation)
    } else if c == RegleConversionTaxe::AuProrata.code_spec() {
        Some(RegleConversionTaxe::AuProrata)
    } else if c == RegleConversionTaxe::SeuilHoraire.code_spec() {
        Some(RegleConversionTaxe::SeuilHoraire)
    } else {
        None
    }
}

/// Chaque règle de conversion se relit depuis son code.
pub proof fn loi_regle_aller_retour(g: RegleConversionTaxe)
    ensures
        regle_de_code(g.code_spec()) == Some(g),
{
    reveal_strlit("aucune");
    reveal_strlit("une_nuitee_par_occupation");
    reveal_strlit("au_prorata");
    reveal_strlit("seuil_horaire");
    assert("aucune"@.len() == 6);
    assert("une_nuitee_par_occupation"@.len() == 25);
    assert("au_prorata"@.len() == 10);
    assert("seuil_horaire"@.len() == 13);
}

// =================================================================================================
//  Le statut de ménage
// =================================================================================================

/// L'état de propreté d'une unité.
#[derive(Debug, Clone, Copy, PartialEq, Eq, Structural)]
pub enum StatutMenage {
    ANettoyer,
    Propre,
    Maintenance,
}

impl StatutMenage {
    /// Les trois états, dans l'ordre du référentiel.
    pub const TOUS: [StatutMenage; 3] = [
        StatutMenage::ANettoyer,
        StatutMenage::Propre,
        StatutMenage::Maintenance,
    ];

    pub open spec fn code_spec(self) -> Seq<char> {
        match self {
            StatutMenage::ANettoyer => "a_nettoyer"@,
            StatutMenage::Propre => "propre"@,
            StatutMenage::Maintenance => "maintenance"@,
        }
    }

    /// Le code stocké en base.
    pub fn code(self) -> (r: &'static str)
        ensures
            r@ == self.code_spec(),
    {
        match self {
            StatutMenage::ANettoyer => "a_nettoyer",
            StatutMenage::Propre => "propre",
            StatutMenage::Maintenance => "maintenance",
        }
    }

    /// Relit un statut depuis son code ; un code inconnu est refusé et nommé.
    pub fn depuis_code(code: &str) -> (r: Result<StatutMenage, ErreurReferentiel>)
        ensures
            match statut_menage_de_code(code@) {
                Some(m) => r == Ok::<StatutMenage, ErreurReferentiel>(m),
                None => r matches Err(ErreurReferentiel::StatutMenageInconnu(s)) && s@ == code@,
            },
    {
        if egal(code, "a_nettoyer") {
            Ok(StatutMenage::ANettoyer)
        } else if egal(code, "propre") {
            Ok(StatutMenage::Propre)
        } else if egal(code, "maintenance") {
            Ok(StatutMenage::Maintenance)
        } else {
            Err(ErreurReferentiel::StatutMenageInconnu(code.to_owned()))
        }
    }
}

/// Le statut de ménage dont `c` est le code, s'il y en a un.
pub open spec fn statut_menage_de_code(c: Seq<char>) -> Option<StatutMenage> {
    if c == StatutMenage::ANettoyer.code_spec() {
        Some(StatutMenage::ANettoyer)
    } else if c == StatutMenage::Propre.code_spec() {
        Some(StatutMenage::Propre)
    } else if c == StatutMenage::Maintenance.code_spec() {
        Some(StatutMenage::Maintenance)
    } else {
        None
    }
}

/// Chaque statut de ménage se relit depuis son code.
pub proof fn loi_statut_menage_aller_retour(m: StatutMenage)
    ensures
        statut_menage_de_code(m.code_spec()) == Some(m),
{
    reveal_strlit("a_nettoyer");
    reveal_strlit("propre");
    reveal_strlit("maintenance");
    assert("a_nettoyer"@.len() == 10);
    assert("propre"@.len() == 6);
    assert("maintenance"@.len() == 11);
}

// =================================================================================================
//  Les refus du référentiel
// =================================================================================================

/// Échec du référentiel d'hébergement. Chaque variante porte le code que le contrat HTTP rend.
#[derive(Debug)]
pub enum ErreurReferentiel {
    /// Hors des quatre familles — refus explicite, jamais une valeur par défaut.
    FamilleInconnue(String),
    RegleConversionInconnue(String),
    StatutMenageInconnu(String),
    EtablissementInconnu,
    CategorieInconnue,
    UniteInconnue,
    FormuleInconnue,
    /// Une formule `PASSAGE` sans palier ne sait rien facturer.
    BaremeAbsent,
    /// Une `DEMI_JOURNEE` sans plage n'a rien à vendre.
    PlagesAbsentes,
    /// Le refus nomme ce qui occupe.
    CategorieOccupee { unites: i64 },
    /// Un champ refusé, nommé.
    ChampNonModifiable(String),
    /// L'heure murale n'est pas au format `HH:MM`.
    HeureInvalide(String),
    /// Le module `HEBERGEMENT` n'est pas actif dans cet établissement.
    ServiceInactif,
    /// Une panne d'infrastructure (base, grand livre, annuaire), décrite pour les journaux.
    Interne(String),
}

impl ErreurReferentiel {
    pub open spec fn code_spec(&self) -> Seq<char> {
        match self {
            ErreurReferentiel::FamilleInconnue(_) => "famille_inconnue"@,
            ErreurReferentiel::RegleConversionInconnue(_) => "regle_conversion_inconnue"@,
            ErreurReferentiel::StatutMenageInconnu(_) => "statut_menage_inconnu"@,
            ErreurReferentiel::EtablissementInconnu => "etablissement_inconnu"@,
            ErreurReferentiel::CategorieInconnue => "categorie_inconnue"@,
            ErreurReferentiel::UniteInconnue => "unite_inconnue"@,
            ErreurReferentiel::FormuleInconnue => "formule_inconnue"@,
            ErreurReferentiel::BaremeAbsent => "bareme_absent"@,
            ErreurReferentiel::PlagesAbsentes => "plages_absentes"@,
            ErreurReferentiel::CategorieOccupee { .. } => "categorie_occupee"@,
            ErreurReferentiel::ChampNonModifiable(_) => "champ_non_modifiable"@,
            ErreurReferentiel::HeureInvalide(_) => "heure_invalide"@,
            ErreurReferentiel::ServiceInactif => "service_inactif"@,
            ErreurReferentiel::Interne(_) => "erreur_interne"@,
        }
    }

    /// Le code stable que le contrat HTTP rend — c'est lui que l'interface traduit.
    pub fn code(&self) -> (r: &'static str)
        ensures
            r@ == self.code_spec(),
    {
        match self {
            ErreurReferentiel::FamilleInconnue(_) => "famille_inconnue",
            ErreurReferentiel::RegleConversionInconnue(_) => "regle_conversion_inconnue",
            ErreurReferentiel::StatutMenageInconnu(_) => "statut_menage_inconnu",
            ErreurReferentiel::EtablissementInconnu => "etablissement_inconnu",
            ErreurReferentiel::CategorieInconnue => "categorie_inconnue",
            ErreurReferentiel::UniteInconnue => "unite_inconnue",
            ErreurReferentiel::FormuleInconnue => "formule_inconnue",
            ErreurReferentiel::BaremeAbsent => "bareme_absent",
            ErreurReferentiel::PlagesAbsentes => "plages_absentes",
            ErreurReferentiel::CategorieOccupee { .. } => "categorie_occupee",
            ErreurReferentiel::ChampNonModifiable(_) => "champ_non_modifiable",
            ErreurReferentiel::HeureInvalide(_) => "heure_invalide",
            ErreurReferentiel::ServiceInactif => "service_inactif",
            ErreurReferentiel::Interne(_) => "erreur_interne",
        }
    }

    /// Le message de diagnostic : le code, suivi de la valeur refusée quand il y en a une.
    pub open spec fn message_spec(&self) -> Seq<char> {
        match self {
            ErreurReferentiel::FamilleInconnue(v)
            | ErreurReferentiel::RegleConversionInconnue(v)
            | ErreurReferentiel::StatutMenageInconnu(v)
            | ErreurReferentiel::ChampNonModifiable(v)
            | ErreurReferentiel::HeureInvalide(v) => self.code_spec() + ": "@ + v@,
            ErreurReferentiel::CategorieOccupee { unites } => self.code_spec() + ": "@
                + decimal_signe(*unites as int) + " unité(s)"@,
            ErreurReferentiel::Interne(v) => "erreur interne : "@ + v@,
            _ => self.code_spec(),
        }
    }

    /// Le message de diagnostic destiné aux journaux — jamais affiché tel quel.
    pub fn message(&self) -> (r: String)
        ensures
            r@ == self.message_spec(),
    {
        let mut m = String::from_str(self.code());
        match self {
            ErreurReferentiel::FamilleInconnue(v)
            | ErreurReferentiel::RegleConversionInconnue(v)
            | ErreurReferentiel::StatutMenageInconnu(v)
            | ErreurReferentiel::ChampNonModifiable(v)
            | ErreurReferentiel::HeureInvalide(v) => {
                m.append(": ");
                m.append(v.as_str());
            },
            ErreurReferentiel::CategorieOccupee { unites } => {
                m.append(": ");
                ecrire_decimal_signe(&mut m, *unites);
                m.append(" unité(s)");
            },
            ErreurReferentiel::Interne(v) => {
                m = String::from_str("erreur interne : ");
                m.append(v.as_str());
            },
            _ => {},
        }
        m
    }
}


// =================================================================================================
//  Heures murales — une conversion, écrite une fois
// =================================================================================================

/// Une heure murale locale, à la minute.
#[derive(Debug, Clone, Copy, PartialEq, Eq, Structural)]
pub struct HeureMurale {
    pub heure: u8,
    pub minute: u8,
}

/// `s` sans son éventuel signe `+` de tête.
pub open spec fn sans_plus(s: Seq<char>) -> Seq<char> {
    if s.len() > 0 && s[0] == '+' {
        s.drop_first()
    } else {
        s
    }
}

/// Une suite non vide de chiffres décimaux.
pub open spec fn chiffres(d: Seq<char>) -> bool {
    d.len() > 0 && forall|i: int| 0 <= i < d.len() ==> est_chiffre(#[trigger] d[i])
}

/// La lecture d'un entier non signé de 8 bits : un `+` facultatif, puis au moins un chiffre
/// décimal, pour une valeur d'au plus 255.
pub open spec fn lire_octet(s: Seq<char>) -> Option<u8> {
    if chiffres(sans_plus(s)) && valeur_decimale(sans_plus(s)) <= 255 {
        Some(valeur_decimale(sans_plus(s)) as u8)
    } else {
        None
    }
}

/// `k` est la position du seul `:` de `s`.
pub open spec fn seul_deux_points(s: Seq<char>, k: int) -> bool {
    &&& 0 <= k < s.len()
    &&& s[k] == ':'
    &&& forall|j: int| 0 <= j < s.len() && j != k ==> #[trigger] s[j] != ':'
}

/// L'heure que désigne un texte `HH:MM` : exactement deux morceaux séparés par `:`, chacun un
/// entier de 8 bits, pour une heure de 0 à 23 et une minute de 0 à 59.
pub open spec fn heure_de_texte(s: Seq<char>) -> Option<HeureMurale> {
    if exists|k: int| seul_deux_points(s, k) {
        let k = choose|k: int| seul_deux_points(s, k);
        match (lire_octet(s.subrange(0, k)), lire_octet(s.subrange(k + 1, s.len() as int))) {
            (Some(h), Some(m)) => if h < 24 && m < 60 {
                Some(HeureMurale { heure: h, minute: m })
            } else {
                None
            },
            _ => None,
        }
    } else {
        None
    }
}

/// Un préfixe de chiffres ne vaut jamais plus que la suite entière.
proof fn lemme_prefixe_croissant(d: Seq<char>, i: int)
    requires
        0 <= i <= d.len(),
        forall|j: int| 0 <= j < d.len() ==> est_chiffre(#[trigger] d[j]),
    ensures
        valeur_decimale(d.subrange(0, i)) <= valeur_decimale(d),
    decreases d.len() - i,
{
    if i < d.len() {
        lemme_prefixe_croissant(d, i + 1);
        let p = d.subrange(0, i + 1);
        assert(p.drop_last() =~= d.subrange(0, i));
        assert(est_chiffre(p.last()));
    } else {
        assert(d.subrange(0, i) =~= d);
    }
}

/// Lit un entier de 8 bits écrit en décimal.
fn lire_octet_exec(t: &str) -> (r: Option<u8>)
    ensures
        r == lire_octet(t@),
{
    let n = t.unicode_len();
    let mut i: usize = 0;
    if n > 0 && t.get_char(0) == '+' {
        i = 1;
    }
    let ghost d = sans_plus(t@);
    let debut = i;
    assert(d =~= t@.subrange(debut as int, n as int));
    if i == n {
        return None;
    }
    let mut valeur: u64 = 0;
    while i < n
        invariant
            n == t@.len(),
            debut <= i <= n,
            debut < n,
            d == sans_plus(t@),
            d =~= t@.subrange(debut as int, n as int),
            forall|j: int| debut <= j < i ==> est_chiffre(#[trigger] t@[j]),
            valeur == valeur_decimale(t@.subrange(debut as int, i as int)),
            valeur <= 255,
        decreases n - i,
    {
        let c = t.get_char(i);
        assert(d[i - debut] == t@[i as int]);
        if !('0' <= c && c <= '9') {
            assert(!est_chiffre(d[i - debut]));
            assert(!chiffres(d));
            return None;
        }
        let chiffre_lu = (c as u32 - '0' as u32) as u64;
        assert(chiffre_lu == valeur_chiffre(c));
        let suivante = valeur * 10 + chiffre_lu;
        proof {
            let p = t@.subrange(debut as int, i + 1);
            assert(p.drop_last() =~= t@.subrange(debut as int, i as int));
            assert(p.last() == c);
        }
        if suivante > 255 {
            assert(valeur_decimale(t@.subrange(debut as int, i + 1)) == suivante);
            proof {
                if chiffres(d) {
                    lemme_prefixe_croissant(d, i + 1 - debut);
                    assert(d.subrange(0, i + 1 - debut) =~= t@.subrange(
                        debut as int,
                        i + 1,
                    ));
                }
            }
            return None;
        }
        valeur = suivante;
        i = i + 1;
    }
    assert(t@.subrange(debut as int, n as int) =~= d);
    Some(valeur as u8)
}


/// Analyse une heure murale `HH:MM` ; tout autre texte est refusé et nommé.
pub fn heure_depuis_texte(texte: &str) -> (r: Result<HeureMurale, ErreurReferentiel>)
    ensures
        match heure_de_texte(texte@) {
            Some(h) => r == Ok::<HeureMurale, ErreurReferentiel>(h),
            None => r matches Err(ErreurReferentiel::HeureInvalide(s)) && s@ == texte@,
        },
{
    let n = texte.unicode_len();
    let mut k: usize = 0;
    while k < n && texte.get_char(k) != ':'
        invariant
            n == texte@.len(),
            0 <= k <= n,
            forall|j: int| 0 <= j < k ==> #[trigger] texte@[j] != ':',
        decreases n - k,
    {
        k = k + 1;
    }
    if k == n {
        assert(!(exists|k: int| seul_deux_points(texte@, k))) by {
            if exists|k: int| seul_deux_points(texte@, k) {
                let k = choose|k: int| seul_deux_points(texte@, k);
                assert(texte@[k] == ':');
            }
        }
        return Err(ErreurReferentiel::HeureInvalide(texte.to_owned()));
    }
    let mut j: usize = k + 1;
    while j < n
        invariant
            n == texte@.len(),
            k < n,
            texte@[k as int] == ':',
            k + 1 <= j <= n,
            forall|i: int| 0 <= i < k ==> #[trigger] texte@[i] != ':',
            forall|i: int| k < i < j ==> #[trigger] texte@[i] != ':',
        decreases n - j,
    {
        if texte.get_char(j) == ':' {
            assert(!(exists|k: int| seul_deux_points(texte@, k))) by {
                if exists|k2: int| seul_deux_points(texte@, k2) {
                    let k2 = choose|k2: int| seul_deux_points(texte@, k2);
                    assert(texte@[k as int] == ':');
                    assert(texte@[j as int] == ':');
                }
            }
            return Err(ErreurReferentiel::HeureInvalide(texte.to_owned()));
        }
        j = j + 1;
    }
    assert(seul_deux_points(texte@, k as int));
    proof {
        let k2 = choose|k2: int| seul_deux_points(texte@, k2);
        assert(texte@[k2] == ':');
        assert(k2 == k);
    }
    let heure = lire_octet_exec(texte.substring_char(0, k));
    let minute = lire_octet_exec(texte.substring_char(k + 1, n));
    match (heure, minute) {
        (Some(h), Some(m)) => {
            if h < 24 && m < 60 {
                Ok(HeureMurale { heure: h, minute: m })
            } else {
                Err(ErreurReferentiel::HeureInvalide(texte.to_owned()))
            }
        },
        _ => Err(ErreurReferentiel::HeureInvalide(texte.to_owned())),
    }
}

/// Un nombre sur au moins deux chiffres, complété d'un zéro de tête.
pub open spec fn deux_chiffres(n: u8) -> Seq<char> {
    if n < 10 {
        seq!['0', car_chiffre(n as int)]
    } else {
        crate::texte::decimal(n as nat)
    }
}

/// Le texte `HH:MM` d'une heure murale.
pub open spec fn texte_heure(h: HeureMurale) -> Seq<char> {
    deux_chiffres(h.heure) + ":"@ + deux_chiffres(h.minute)
}

fn ecrire_deux_chiffres(s: &mut String, n: u8)
    ensures
        final(s)@ == old(s)@ + deux_chiffres(n),
{
    if n < 10 {
        pousser(s, '0');
        pousser(s, chiffre(n as u64));
        assert(s@ =~= old(s)@ + seq!['0', car_chiffre(n as int)]);
    } else {
        crate::texte::ecrire_decimal(s, n as u64);
    }
}

/// Rend une heure murale au format `HH:MM`.
pub fn heure_en_texte(heure: HeureMurale) -> (r: String)
    ensures
        r@ == texte_heure(heure),
{
    let mut t = String::new();
    ecrire_deux_chiffres(&mut t, heure.heure);
    t.append(":");
    ecrire_deux_chiffres(&mut t, heure.minute);
    assert(t@ =~= texte_heure(heure));
    t
}

proof fn lemme_chiffre_aller_retour(d: int)
    requires
        0 <= d < 10,
    ensures
        est_chiffre(car_chiffre(d)),
        valeur_chiffre(car_chiffre(d)) == d,
        car_chiffre(d) != ':',
        car_chiffre(d) != '+',
{
}

/// Pour un nombre de 0 à 99, l'écriture sur deux chiffres.
proof fn lemme_deux_chiffres(n: u8)
    requires
        n < 100,
    ensures
        deux_chiffres(n) == seq![car_chiffre((n / 10) as int), car_chiffre((n % 10) as int)],
        valeur_decimale(deux_chiffres(n)) == n,
        chiffres(deux_chiffres(n)),
        sans_plus(deux_chiffres(n)) == deux_chiffres(n),
{
    lemme_chiffre_aller_retour((n / 10) as int);
    lemme_chiffre_aller_retour((n % 10) as int);
    if n >= 10 {
        reveal_with_fuel(crate::texte::decimal, 3);
        assert(crate::texte::decimal(n as nat) =~= seq![
            car_chiffre((n / 10) as int),
            car_chiffre((n % 10) as int),
        ]);
    }
    let t = seq![car_chiffre((n / 10) as int), car_chiffre((n % 10) as int)];
    assert(t.drop_last() =~= seq![car_chiffre((n / 10) as int)]);
    assert(t.drop_last().drop_last() =~= Seq::<char>::empty());
    reveal_with_fuel(valeur_decimale, 3);
    assert(valeur_decimale(t.drop_last()) == (n / 10) as int);
}

/// Toute heure murale valide se relit depuis son texte `HH:MM`.
pub proof fn loi_heure_aller_retour(h: HeureMurale)
    requires
        h.heure < 24,
        h.minute < 60,
    ensures
        heure_de_texte(texte_heure(h)) == Some(h),
{
    let t = texte_heure(h);
    lemme_deux_chiffres(h.heure);
    lemme_deux_chiffres(h.minute);
    reveal_strlit(":");
    let a = deux_chiffres(h.heure);
    let b = deux_chiffres(h.minute);
    assert(t.len() == 5);
    assert(t[2] == ':');
    assert(t.subrange(0, 2) =~= a);
    assert(t.subrange(3, 5) =~= b);
    assert(seul_deux_points(t, 2));
    let k = choose|k: int| seul_deux_points(t, k);
    assert(t[k] == ':');
    assert(k == 2);
}

// =================================================================================================
//  Les validations que la base ne peut pas exprimer
// =================================================================================================

/// Une formule `PASSAGE` porte au moins un palier, une `DEMI_JOURNEE` au moins une plage.
pub fn valider_enfants(famille: FamilleFormule, paliers: usize, plages: usize) -> (r: Result<
    (),
    ErreurReferentiel,
>)
    ensures
        famille == FamilleFormule::Passage && paliers == 0 ==> r matches Err(
            ErreurReferentiel::BaremeAbsent,
        ),
        famille == FamilleFormule::DemiJournee && plages == 0 ==> r matches Err(
            ErreurReferentiel::PlagesAbsentes,
        ),
        !(famille == FamilleFormule::Passage && paliers == 0) && !(famille
            == FamilleFormule::DemiJournee && plages == 0) ==> r is Ok,
{
    match famille {
        FamilleFormule::Passage if paliers == 0 => Err(ErreurReferentiel::BaremeAbsent),
        FamilleFormule::DemiJournee if plages == 0 => Err(ErreurReferentiel::PlagesAbsentes),
        _ => Ok(()),
    }
}

/// Longueur maximale d'un nom de catégorie et d'un code d'unité.
pub const NOM_MAX: usize = 120;
pub const CODE_MAX: usize = 32;

/// Nettoie un libellé saisi : sans ses espaces de bord, il doit compter de 1 à `max`
/// caractères ; sinon le refus nomme le champ.
pub fn nettoyer_libelle(texte: &str, max: usize, champ: &str) -> (r: Result<
    String,
    ErreurReferentiel,
>)
    ensures
        (0 < rogne(texte@).len() <= max) ==> (r matches Ok(t) && t@ == rogne(texte@)),
        !(0 < rogne(texte@).len() <= max) ==> (r matches Err(
            ErreurReferentiel::ChampNonModifiable(c),
        ) && c@ == champ@),
{
    let t = rogner(texte);
    let n = t.unicode_len();
    if n == 0 || n > max {
        return Err(ErreurReferentiel::ChampNonModifiable(champ.to_owned()));
    }
    Ok(t.to_owned())
}

// =================================================================================================
//  Ce que l'API reçoit et rend du référentiel
// =================================================================================================

/// Un battement de remise en état, pour une famille de formule. Zéro est une valeur, pas une
/// absence.
#[derive(Debug, Clone, Copy, PartialEq, Eq, Structural)]
pub struct TempsRemiseEnEtat {
    pub famille_formule: FamilleFormule,
    pub duree_minutes: i32,
}

/// Un palier du barème de passage ; la devise est portée par la formule.
#[derive(Debug, Clone, Copy, PartialEq, Eq, Structural)]
pub struct PalierVue {
    pub duree_minutes: i32,
    /// Entier d'unité mineure.
    pub prix_mineur: i64,
}

/// Modification d'un type de chambre — remplacement complet, jamais un correctif partiel.
#[derive(Debug, Clone)]
pub struct ModifierCategorie {
    pub nom: String,
    pub capacite_accueil: i16,
    pub temps_remise_en_etat: Vec<TempsRemiseEnEtat>,
}

/// Correction d'une unité : le code et l'étage, et pas un champ de plus.
#[derive(Debug, Clone)]
pub struct ModifierUnite {
    pub code: String,
    pub etage: Option<i16>,
}

/// Une plage demandée — sans identifiant, que le serveur pose.
#[derive(Debug, Clone)]
pub struct PlageDemandee {
    /// Heure murale locale, `HH:MM`.
    pub heure_debut: String,
    pub heure_fin: String,
    /// Clé i18n, jamais une phrase.
    pub libelle_cle: String,
}

/// Modification d'une formule — c'est là que l'exploitant règle la taxe et le prix.
#[derive(Debug, Clone)]
pub struct ModifierFormule {
    pub prix_mineur: i64,
    pub duree_min_minutes: Option<i32>,
    pub duree_max_minutes: Option<i32>,
    pub heure_arrivee_standard: Option<String>,
    pub heure_depart_standard: Option<String>,
    pub jours_autorises: Option<Vec<i16>>,
    pub assujettie_taxe_nuitee: bool,
    pub regle_conversion_taxe: Option<RegleConversionTaxe>,
    pub prix_heure_supplementaire_mineur: Option<i64>,
    pub paliers: Vec<PalierVue>,
    pub plages: Vec<PlageDemandee>,
}

/// Le paramétrage fiscal d'une formule — jamais un montant. `None` : formule non assujettie.
#[derive(Debug, Clone, Copy, PartialEq, Eq, Structural)]
pub struct ParametrageFiscal {
    pub assujettie_taxe_nuitee: bool,
    pub regle_conversion: Option<RegleConversionTaxe>,
}

/// Valide une modification de formule contre sa famille **en base** — la famille ne se modifie
/// pas : un passage garde au moins un palier, une demi-journée au moins une plage.
pub fn valider_modification_formule(famille: FamilleFormule, demande: &ModifierFormule) -> (r:
    Result<(), ErreurReferentiel>)
    ensures
        famille == FamilleFormule::Passage && demande.paliers@.len() == 0 ==> r matches Err(
            ErreurReferentiel::BaremeAbsent,
        ),
        famille == FamilleFormule::DemiJournee && demande.plages@.len() == 0 ==> r matches Err(
            ErreurReferentiel::PlagesAbsentes,
        ),
        !(famille == FamilleFormule::Passage && demande.paliers@.len() == 0) && !(famille
            == FamilleFormule::DemiJournee && demande.plages@.len() == 0) ==> r is Ok,
{
    valider_enfants(famille, demande.paliers.len(), demande.plages.len())
}

// =================================================================================================
//  Les formules et les types de chambre, composés depuis leurs lignes
// =================================================================================================

/// Une formule telle que la base la rend, avant composition.
#[derive(Debug, Clone)]
pub struct LigneFormule {
    pub id: u128,
    pub categorie_id: u128,
    pub famille: String,
    pub prix_mineur: i64,
    pub duree_min_minutes: Option<i32>,
    pub duree_max_minutes: Option<i32>,
    pub heure_arrivee_standard: Option<HeureMurale>,
    pub heure_depart_standard: Option<HeureMurale>,
    pub jours_autorises: Option<Vec<i16>>,
    pub assujettie_taxe_nuitee: bool,
    pub regle_conversion_taxe: Option<String>,
    pub prix_heure_supplementaire_mineur: Option<i64>,
}

/// Un palier, rattaché à sa formule.
#[derive(Debug, Clone, Copy, PartialEq, Eq, Structural)]
pub struct LignePalier {
    pub formule_id: u128,
    pub duree_minutes: i32,
    pub prix_mineur: i64,
}

/// Une plage de demi-journée, rattachée à sa formule.
#[derive(Debug, Clone)]
pub struct LignePlage {
    pub id: u128,
    pub formule_id: u128,
    pub heure_debut: HeureMurale,
    pub heure_fin: HeureMurale,
    pub libelle_cle: String,
}

/// Une plage de demi-journée, telle que l'API la rend : heures murales au format `HH:MM`.
#[derive(Debug, Clone)]
pub struct PlageVue {
    pub id: u128,
    pub heure_debut: String,
    pub heure_fin: String,
    pub libelle_cle: String,
}

/// Une formule telle que l'écran la lit, avec ses paliers et ses plages.
#[derive(Debug, Clone)]
pub struct FormuleVue {
    pub id: u128,
    pub categorie_id: u128,
    pub famille: FamilleFormule,
    pub prix_mineur: i64,
    /// Au même niveau que le montant, toujours : celle de l'établissement.
    pub devise: String,
    pub duree_min_minutes: Option<i32>,
    pub duree_max_minutes: Option<i32>,
    pub heure_arrivee_standard: Option<String>,
    pub heure_depart_standard: Option<String>,
    pub jours_autorises: Option<Vec<i16>>,
    pub assujettie_taxe_nuitee: bool,
    pub regle_conversion_taxe: Option<RegleConversionTaxe>,
    pub prix_heure_supplementaire_mineur: Option<i64>,
    pub paliers: Vec<PalierVue>,
    pub plages: Vec<PlageVue>,
}

/// Les paliers d'une formule, dans l'ordre des lignes.
pub open spec fn paliers_de(lignes: Seq<LignePalier>, formule_id: u128) -> Seq<PalierVue>
    decreases lignes.len(),
{
    if lignes.len() == 0 {
        Seq::empty()
    } else {
        let debut = paliers_de(lignes.drop_last(), formule_id);
        let l = lignes.last();
        if l.formule_id == formule_id {
            debut.push(PalierVue { duree_minutes: l.duree_minutes, prix_mineur: l.prix_mineur })
        } else {
            debut
        }
    }
}

/// Une plage, en vue : l'identifiant, les deux heures en texte et la clé de libellé.
pub open spec fn vue_plage(p: PlageVue) -> (u128, Seq<char>, Seq<char>, Seq<char>) {
    (p.id, p.heure_debut@, p.heure_fin@, p.libelle_cle@)
}

/// Les plages d'une formule, en vue, dans l'ordre des lignes.
pub open spec fn plages_de(lignes: Seq<LignePlage>, formule_id: u128) -> Seq<
    (u128, Seq<char>, Seq<char>, Seq<char>),
>
    decreases lignes.len(),
{
    if lignes.len() == 0 {
        Seq::empty()
    } else {
        let debut = plages_de(lignes.drop_last(), formule_id);
        let l = lignes.last();
        if l.formule_id == formule_id {
            debut.push((l.id, texte_heure(l.heure_debut), texte_heure(l.heure_fin), l.libelle_cle@))
        } else {
            debut
        }
    }
}

/// Les jours autorisés, en vue.
pub open spec fn jours_vue(j: Option<Vec<i16>>) -> Option<Seq<i16>> {
    match j {
        Some(v) => Some(v@),
        None => None,
    }
}

/// Une heure facultative, en texte.
pub open spec fn texte_heure_option(h: Option<HeureMurale>) -> Option<Seq<char>> {
    match h {
        Some(h) => Some(texte_heure(h)),
        None => None,
    }
}

/// `f` est la formule que la ligne `l` décrit, avec ses paliers et ses plages.
pub open spec fn formule_conforme(
    f: FormuleVue,
    l: LigneFormule,
    paliers: Seq<LignePalier>,
    plages: Seq<LignePlage>,
    devise: Seq<char>,
) -> bool {
    &&& famille_de_code(l.famille@) == Some(f.famille)
    &&& f.id == l.id
    &&& f.categorie_id == l.categorie_id
    &&& f.prix_mineur == l.prix_mineur
    &&& f.devise@ == devise
    &&& f.duree_min_minutes == l.duree_min_minutes
    &&& f.duree_max_minutes == l.duree_max_minutes
    &&& crate::texte::vue_option(f.heure_arrivee_standard) == texte_heure_option(
        l.heure_arrivee_standard,
    )
    &&& crate::texte::vue_option(f.heure_depart_standard) == texte_heure_option(
        l.heure_depart_standard,
    )
    &&& jours_vue(f.jours_autorises) == jours_vue(l.jours_autorises)
    &&& f.assujettie_taxe_nuitee == l.assujettie_taxe_nuitee
    &&& f.regle_conversion_taxe == match l.regle_conversion_taxe {
        Some(c) => regle_de_code(c@),
        None => None,
    }
    &&& f.prix_heure_supplementaire_mineur == l.prix_heure_supplementaire_mineur
    &&& f.paliers@ == paliers_de(paliers, l.id)
    &&& f.plages@.map_values(|p: PlageVue| vue_plage(p)) == plages_de(plages, l.id)
}

/// `e` est le refus `attendu` : même variante, même code relu.
pub open spec fn refus_conforme(e: ErreurReferentiel, attendu: ErreurReferentiel) -> bool {
    match attendu {
        ErreurReferentiel::RegleConversionInconnue(c) => e matches ErreurReferentiel::RegleConversionInconnue(
            v,
        ) && v@ == c@,
        ErreurReferentiel::FamilleInconnue(c) => e matches ErreurReferentiel::FamilleInconnue(v)
            && v@ == c@,
        _ => false,
    }
}

/// Le refus que la composition d'une formule rend, s'il y en a un : une règle de conversion
/// illisible d'abord, une famille illisible ensuite.
pub open spec fn refus_formule(l: LigneFormule) -> Option<ErreurReferentiel> {
    if l.regle_conversion_taxe is Some && regle_de_code(l.regle_conversion_taxe->0@) is None {
        Some(ErreurReferentiel::RegleConversionInconnue(l.regle_conversion_taxe->0))
    } else if famille_de_code(l.famille@) is None {
        Some(ErreurReferentiel::FamilleInconnue(l.famille))
    } else {
        None
    }
}

fn heure_option(h: Option<HeureMurale>) -> (r: Option<String>)
    ensures
        crate::texte::vue_option(r) == texte_heure_option(h),
{
    match h {
        Some(h) => Some(heure_en_texte(h)),
        None => None,
    }
}

fn paliers_de_formule(lignes: &[LignePalier], formule_id: u128) -> (r: Vec<PalierVue>)
    ensures
        r@ == paliers_de(lignes@, formule_id),
{
    let mut r: Vec<PalierVue> = Vec::new();
    let mut i: usize = 0;
    while i < lignes.len()
        invariant
            0 <= i <= lignes@.len(),
            r@ == paliers_de(lignes@.subrange(0, i as int), formule_id),
        decreases lignes@.len() - i,
    {
        assert(lignes@.subrange(0, i + 1).drop_last() =~= lignes@.subrange(0, i as int));
        let l = lignes[i];
        if l.formule_id == formule_id {
            r.push(PalierVue { duree_minutes: l.duree_minutes, prix_mineur: l.prix_mineur });
        }
        i = i + 1;
    }
    assert(lignes@.subrange(0, lignes@.len() as int) =~= lignes@);
    r
}

fn plages_de_formule(lignes: &[LignePlage], formule_id: u128) -> (r: Vec<PlageVue>)
    ensures
        r@.map_values(|p: PlageVue| vue_plage(p)) == plages_de(lignes@, formule_id),
{
    let mut r: Vec<PlageVue> = Vec::new();
    let mut i: usize = 0;
    while i < lignes.len()
        invariant
            0 <= i <= lignes@.len(),
            r@.map_values(|p: PlageVue| vue_plage(p)) == plages_de(
                lignes@.subrange(0, i as int),
                formule_id,
            ),
        decreases lignes@.len() - i,
    {
        assert(lignes@.subrange(0, i + 1).drop_last() =~= lignes@.subrange(0, i as int));
        let l = &lignes[i];
        if l.formule_id == formule_id {
            let ghost avant = r@;
            r.push(
                PlageVue {
                    id: l.id,
                    heure_debut: heure_en_texte(l.heure_debut),
                    heure_fin: heure_en_texte(l.heure_fin),
                    libelle_cle: l.libelle_cle.clone(),
                },
            );
            assert(r@.map_values(|p: PlageVue| vue_plage(p)) =~= avant.map_values(
                |p: PlageVue| vue_plage(p),
            ).push(vue_plage(r@[r@.len() - 1])));
        }
        i = i + 1;
    }
    assert(lignes@.subrange(0, lignes@.len() as int) =~= lignes@);
    r
}

/// Compose une formule depuis sa ligne, les paliers et les plages lus — chacun rattaché par son
/// identifiant de formule, dans l'ordre où la base les rend. Un code illisible en base est refusé
/// et nommé.
pub fn composer_formule(
    ligne: &LigneFormule,
    paliers: &[LignePalier],
    plages: &[LignePlage],
    devise: &str,
) -> (r: Result<FormuleVue, ErreurReferentiel>)
    ensures
        match refus_formule(*ligne) {
            Some(e) => match e {
                ErreurReferentiel::RegleConversionInconnue(c) => r matches Err(
                    ErreurReferentiel::RegleConversionInconnue(v),
                ) && v@ == c@,
                ErreurReferentiel::FamilleInconnue(c) => r matches Err(
                    ErreurReferentiel::FamilleInconnue(v),
                ) && v@ == c@,
                _ => false,
            },
            None => r matches Ok(f) && formule_conforme(f, *ligne, paliers@, plages@, devise@),
        },
{
    let regle = match &ligne.regle_conversion_taxe {
        None => None,
        Some(code) => match RegleConversionTaxe::depuis_code(code.as_str()) {
            Ok(g) => Some(g),
            Err(e) => {
                return Err(e);
            },
        },
    };
    let famille = match FamilleFormule::depuis_code(ligne.famille.as_str()) {
        Ok(f) => f,
        Err(e) => {
            return Err(e);
        },
    };
    let jours = match &ligne.jours_autorises {
        Some(j) => {
            let copie = j.clone();
            assert(copie@ =~= j@);
            Some(copie)
        },
        None => None,
    };
    Ok(
        FormuleVue {
            id: ligne.id,
            categorie_id: ligne.categorie_id,
            famille,
            prix_mineur: ligne.prix_mineur,
            devise: devise.to_owned(),
            duree_min_minutes: ligne.duree_min_minutes,
            duree_max_minutes: ligne.duree_max_minutes,
            heure_arrivee_standard: heure_option(ligne.heure_arrivee_standard),
            heure_depart_standard: heure_option(ligne.heure_depart_standard),
            jours_autorises: jours,
            assujettie_taxe_nuitee: ligne.assujettie_taxe_nuitee,
            regle_conversion_taxe: regle,
            prix_heure_supplementaire_mineur: ligne.prix_heure_supplementaire_mineur,
            paliers: paliers_de_formule(paliers, ligne.id),
            plages: plages_de_formule(plages, ligne.id),
        },
    )
}

/// Compose les formules d'un établissement, dans l'ordre des lignes ; la première ligne
/// illisible fait refuser la liste.
pub fn composer_formules(
    lignes: &[LigneFormule],
    paliers: &[LignePalier],
    plages: &[LignePlage],
    devise: &str,
) -> (r: Result<Vec<FormuleVue>, ErreurReferentiel>)
    ensures
        r is Ok <==> forall|i: int|
            0 <= i < lignes@.len() ==> (#[trigger] refus_formule(lignes@[i])) is None,
        match r {
            Ok(v) => v@.len() == lignes@.len() && forall|i: int|
                0 <= i < lignes@.len() ==> formule_conforme(
                    #[trigger] v@[i],
                    lignes@[i],
                    paliers@,
                    plages@,
                    devise@,
                ),
            Err(e) => exists|i: int|
                {
                    &&& 0 <= i < lignes@.len()
                    &&& (#[trigger] refus_formule(lignes@[i])) matches Some(a) && refus_conforme(
                        e,
                        a,
                    )
                    &&& forall|j: int| 0 <= j < i ==> (#[trigger] refus_formule(lignes@[j])) is None
                },
        },
{
    let mut formules: Vec<FormuleVue> = Vec::new();
    let mut i: usize = 0;
    while i < lignes.len()
        invariant
            0 <= i <= lignes@.len(),
            formules@.len() == i,
            forall|j: int| 0 <= j < i ==> (#[trigger] refus_formule(lignes@[j])) is None,
            forall|j: int|
                0 <= j < i ==> formule_conforme(
                    #[trigger] formules@[j],
                    lignes@[j],
                    paliers@,
                    plages@,
                    devise@,
                ),
        decreases lignes@.len() - i,
    {
        match composer_formule(&lignes[i], paliers, plages, devise) {
            Ok(f) => formules.push(f),
            Err(e) => {
                assert(refus_formule(lignes@[i as int]) is Some);
                return Err(e);
            },
        }
        i = i + 1;
    }
    Ok(formules)
}

/// Un battement de remise en état tel que la base le rend, rattaché à sa catégorie.
#[derive(Debug, Clone)]
pub struct LigneBattement {
    pub categorie_id: u128,
    pub famille_formule: String,
    pub duree_minutes: i32,
}

/// Un type de chambre, tel que l'API le rend.
#[derive(Debug, Clone)]
pub struct CategorieVue {
    pub id: u128,
    pub etablissement_id: u128,
    pub nom: String,
    pub capacite_accueil: i16,
    /// Vide tant qu'aucun battement n'a été réglé : zéro s'applique alors.
    pub temps_remise_en_etat: Vec<TempsRemiseEnEtat>,
}

/// Un type de chambre tel que la base le rend, avant composition.
#[derive(Debug, Clone)]
pub struct LigneCategorie {
    pub id: u128,
    pub etablissement_id: u128,
    pub nom: String,
    pub capacite_accueil: i16,
}

/// Les battements d'une catégorie, dans l'ordre des lignes, si tous sont lisibles.
pub open spec fn battements_de(lignes: Seq<LigneBattement>, categorie_id: u128) -> Option<
    Seq<TempsRemiseEnEtat>,
>
    decreases lignes.len(),
{
    if lignes.len() == 0 {
        Some(Seq::empty())
    } else {
        match battements_de(lignes.drop_last(), categorie_id) {
            None => None,
            Some(debut) => {
                let l = lignes.last();
                if l.categorie_id != categorie_id {
                    Some(debut)
                } else {
                    match famille_de_code(l.famille_formule@) {
                        Some(f) => Some(
                            debut.push(
                                TempsRemiseEnEtat { famille_formule: f, duree_minutes: l.duree_minutes },
                            ),
                        ),
                        None => None,
                    }
                }
            },
        }
    }
}

/// Compose un type de chambre depuis sa ligne et les battements lus ; un code de famille
/// illisible fait refuser la lecture.
pub fn composer_categorie(ligne: &LigneCategorie, battements: &[LigneBattement]) -> (r: Result<
    CategorieVue,
    ErreurReferentiel,
>)
    ensures
        match battements_de(battements@, ligne.id) {
            Some(t) => r matches Ok(c) && c.id == ligne.id && c.etablissement_id
                == ligne.etablissement_id && c.nom == ligne.nom && c.capacite_accueil
                == ligne.capacite_accueil && c.temps_remise_en_etat@ == t,
            None => r matches Err(ErreurReferentiel::FamilleInconnue(v)) && exists|i: int|
                {
                    &&& 0 <= i < battements@.len()
                    &&& (#[trigger] battements@[i]).categorie_id == ligne.id
                    &&& v@ == battements@[i].famille_formule@
                    &&& famille_de_code(v@) is None
                    &&& forall|j: int|
                        0 <= j < i && (#[trigger] battements@[j]).categorie_id == ligne.id
                            ==> famille_de_code(battements@[j].famille_formule@) is Some
                },
        },
{
    let mut temps: Vec<TempsRemiseEnEtat> = Vec::new();
    let mut i: usize = 0;
    while i < battements.len()
        invariant
            0 <= i <= battements@.len(),
            battements_de(battements@.subrange(0, i as int), ligne.id) == Some(temps@),
            forall|j: int|
                0 <= j < i && (#[trigger] battements@[j]).categorie_id == ligne.id
                    ==> famille_de_code(battements@[j].famille_formule@) is Some,
        decreases battements@.len() - i,
    {
        assert(battements@.subrange(0, i + 1).drop_last() =~= battements@.subrange(0, i as int));
        let b = &battements[i];
        if b.categorie_id == ligne.id {
            match FamilleFormule::depuis_code(b.famille_formule.as_str()) {
                Ok(f) => temps.push(TempsRemiseEnEtat { famille_formule: f, duree_minutes: b.duree_minutes }),
                Err(e) => {
                    proof {
                        lemme_battements_refuses(battements@, ligne.id, i as int + 1);
                        assert(battements@[i as int].categorie_id == ligne.id);
                    }
                    return Err(e);
                },
            }
        }
        i = i + 1;
    }
    assert(battements@.subrange(0, battements@.len() as int) =~= battements@);
    Ok(
        CategorieVue {
            id: ligne.id,
            etablissement_id: ligne.etablissement_id,
            nom: ligne.nom.clone(),
            capacite_accueil: ligne.capacite_accueil,
            temps_remise_en_etat: temps,
        },
    )
}

/// Un préfixe refusé fait refuser toute la suite.
proof fn lemme_battements_refuses(lignes: Seq<LigneBattement>, categorie_id: u128, k: int)
    requires
        0 <= k <= lignes.len(),
        battements_de(lignes.subrange(0, k), categorie_id) is None,
    ensures
        battements_de(lignes, categorie_id) is None,
    decreases lignes.len() - k,
{
    if k < lignes.len() {
        assert(lignes.subrange(0, k + 1).drop_last() =~= lignes.subrange(0, k));
        lemme_battements_refuses(lignes, categorie_id, k + 1);
    } else {
        assert(lignes.subrange(0, k) =~= lignes);
    }
}

/// Le type d'événement d'une formule modifiée.
pub const TYPE_FORMULE_MODIFIEE: &'static str = "heb.formule.modifiee";

/// Le type d'événement d'un tarif de type de chambre modifié.
pub const TYPE_CATEGORIE_TARIF_MODIFIE: &'static str = "heb.categorie.tarif_modifie";

/// Les événements qu'une modification de formule émet, dans l'ordre : la formule modifiée,
/// toujours ; le tarif du type de chambre, quand le prix a bougé.
pub fn evenements_modification_formule(avant: &FormuleVue, apres: &FormuleVue) -> (r: Vec<
    &'static str,
>)
    ensures
        r@.len() == if avant.prix_mineur != apres.prix_mineur {
            2int
        } else {
            1int
        },
        r@[0]@ == TYPE_FORMULE_MODIFIEE@,
        avant.prix_mineur != apres.prix_mineur ==> r@[1]@ == TYPE_CATEGORIE_TARIF_MODIFIE@,
{
    let mut r: Vec<&'static str> = Vec::new();
    r.push(TYPE_FORMULE_MODIFIEE);
    if avant.prix_mineur != apres.prix_mineur {
        r.push(TYPE_CATEGORIE_TARIF_MODIFIE);
    }
    r
}

} // verus!
