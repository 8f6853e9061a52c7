//! L'identité visuelle : posée au tenant, surchargée champ par champ à l'établissement, et
//! rendue en un aperçu qui porte toujours la mention non fiscale.

use vstd::prelude::*;

use crate::texte::{ajouter_texte, copier_option, egal_option, pousser, vue_option};

verus! {

/// Taille maximale d'un logo, en octets : au-delà, des pixels que ni un ticket de 58 mm ni une
/// facture A4 ne restituent.
pub const LOGO_TAILLE_MAX: usize = 512 * 1024;

/// Mention obligatoire sur tout document non fiscal.
pub const MENTION_NON_FISCALE: &'static str = "Document non fiscal — ne tient pas lieu de facture";

/// Le titre de la partie d'aperçu du document de test.
pub const TITRE_APERCU: &'static str = "\n--- Aperçu de votre identité visuelle ---\n\n";

/// L'identité visuelle d'un niveau, telle qu'elle est posée — sans fusion.
#[derive(Debug, Clone)]
pub struct BrandingNiveau {
    pub logo_objet_cle: Option<String>,
    pub couleur_primaire: Option<String>,
    pub entete_document: Option<String>,
    pub pied_document: Option<String>,
    pub mentions_legales: Option<String>,
    pub coordonnees: Option<String>,
}

impl BrandingNiveau {
    /// Un niveau où rien n'est posé.
    pub fn vide() -> (r: BrandingNiveau)
        ensures
            r == niveau_vide(),
    {
        BrandingNiveau {
            logo_objet_cle: None,
            couleur_primaire: None,
            entete_document: None,
            pied_document: None,
            mentions_legales: None,
            coordonnees: None,
        }
    }
}

/// Un niveau où rien n'est posé.
pub open spec fn niveau_vide() -> BrandingNiveau {
    BrandingNiveau {
        logo_objet_cle: None,
        couleur_primaire: None,
        entete_document: None,
        pied_document: None,
        mentions_legales: None,
        coordonnees: None,
    }
}

/// Un champ résolu, avec le niveau d'où vient sa valeur.
#[derive(Debug, Clone)]
pub struct ChampResolu {
    pub valeur: String,
    /// `ETABLISSEMENT` ou `TENANT`.
    pub origine: String,
}

/// L'identité visuelle résolue, champ par champ.
#[derive(Debug, Clone)]
pub struct BrandingResolu {
    pub logo_objet_cle: Option<ChampResolu>,
    pub couleur_primaire: Option<ChampResolu>,
    pub entete_document: Option<ChampResolu>,
    pub pied_document: Option<ChampResolu>,
    pub mentions_legales: Option<ChampResolu>,
    pub coordonnees: Option<ChampResolu>,
}

/// Le refus d'une écriture d'identité visuelle.
#[derive(Debug)]
pub enum ErreurBranding {
    CouleurInvalide(String),
    LogoTropVolumineux { taille: usize, maximum: usize },
    Stockage(String),
    EtablissementInconnu,
    /// Une panne d'infrastructure — base, grand livre, contexte de tenant.
    Interne(String),
}

impl ErreurBranding {
    pub open spec fn code_spec(&self) -> Seq<char> {
        match self {
            ErreurBranding::CouleurInvalide(_) => "couleur_invalide"@,
            ErreurBranding::LogoTropVolumineux { .. } => "logo_trop_volumineux"@,
            ErreurBranding::Stockage(_) => "stockage_indisponible"@,
            ErreurBranding::EtablissementInconnu => "etablissement_inconnu"@,
            ErreurBranding::Interne(_) => "erreur_interne"@,
        }
    }

    /// Le code stable exposé par le contrat HTTP.
    pub fn code(&self) -> (r: &'static str)
        ensures
            r@ == self.code_spec(),
    {
        match self {
            ErreurBranding::CouleurInvalide(_) => "couleur_invalide",
            ErreurBranding::LogoTropVolumineux { .. } => "logo_trop_volumineux",
            ErreurBranding::Stockage(_) => "stockage_indisponible",
            ErreurBranding::EtablissementInconnu => "etablissement_inconnu",
            ErreurBranding::Interne(_) => "erreur_interne",
        }
    }

    /// La valeur refusée : la couleur, ou la taille du logo en décimal.
    pub fn valeur(&self) -> (r: Option<String>)
        ensures
            match self {
                ErreurBranding::CouleurInvalide(v) => r == Some(*v),
                ErreurBranding::LogoTropVolumineux { taille, .. } => r matches Some(t) && t@
                    == crate::texte::decimal(*taille as nat),
                _ => r is None,
            },
    {
        match self {
            ErreurBranding::CouleurInvalide(v) => Some(v.clone()),
            ErreurBranding::LogoTropVolumineux { taille, .. } => {
                let mut t = String::new();
                crate::texte::ecrire_decimal(&mut t, *taille as u64);
                Some(t)
            },
            _ => None,
        }
    }
}

// =================================================================================================
//  La couleur
// =================================================================================================

/// Un chiffre hexadécimal ASCII.
pub open spec fn hexadecimal(c: char) -> bool {
    ||| '0' <= c <= '9'
    ||| 'a' <= c <= 'f'
    ||| 'A' <= c <= 'F'
}

/// Une couleur au format `#RRGGBB`.
pub open spec fn couleur_hex(s: Seq<char>) -> bool {
    &&& s.len() == 7
    &&& s[0] == '#'
    &&& forall|i: int| 1 <= i < 7 ==> hexadecimal(#[trigger] s[i])
}

/// La couleur est-elle au format hexadécimal `#RRGGBB` ?
pub fn couleur_valide(couleur: &str) -> (r: bool)
    ensures
        r == couleur_hex(couleur@),
{
    if couleur.unicode_len() != 7 || couleur.get_char(0) != '#' {
        return false;
    }
    let mut i: usize = 1;
    while i < 7
        invariant
            couleur@.len() == 7,
            couleur@[0] == '#',
            1 <= i <= 7,
            forall|j: int| 1 <= j < i ==> hexadecimal(#[trigger] couleur@[j]),
        decreases 7 - i,
    {
        let c = couleur.get_char(i);
        if !(('0' <= c && c <= '9') || ('a' <= c && c <= 'f') || ('A' <= c && c <= 'F')) {
            return false;
        }
        i = i + 1;
    }
    true
}

/// Une couleur primaire posée doit être valide ; une couleur absente l'est toujours.
pub fn verifier_couleur(contenu: &BrandingNiveau) -> (r: Result<(), ErreurBranding>)
    ensures
        match contenu.couleur_primaire {
            Some(c) => if couleur_hex(c@) {
                r is Ok
            } else {
                r matches Err(ErreurBranding::CouleurInvalide(v)) && v@ == c@
            },
            None => r is Ok,
        },
{
    match &contenu.couleur_primaire {
        Some(c) => if couleur_valide(c.as_str()) {
            Ok(())
        } else {
            Err(ErreurBranding::CouleurInvalide(c.clone()))
        },
        None => Ok(()),
    }
}

// =================================================================================================
//  La fusion des niveaux
// =================================================================================================

/// Un champ résolu, en vue : sa valeur et son origine.
pub open spec fn vue_champ(c: Option<ChampResolu>) -> Option<(Seq<char>, Seq<char>)> {
    match c {
        Some(c) => Some((c.valeur@, c.origine@)),
        None => None,
    }
}

/// La résolution d'un champ : la valeur de l'établissement si elle est posée, sinon celle du
/// tenant, sinon rien.
pub open spec fn champ_attendu(etablissement: Option<String>, tenant: Option<String>) -> Option<
    (Seq<char>, Seq<char>),
> {
    match etablissement {
        Some(v) => Some((v@, "ETABLISSEMENT"@)),
        None => match tenant {
            Some(v) => Some((v@, "TENANT"@)),
            None => None,
        },
    }
}

/// Le niveau posé, ou un niveau vide.
pub open spec fn ou_vide(n: Option<BrandingNiveau>) -> BrandingNiveau {
    match n {
        Some(n) => n,
        None => niveau_vide(),
    }
}

/// `r` est la fusion, champ par champ, du niveau établissement `e` sur le niveau tenant `t`.
pub open spec fn fusion_conforme(
    r: BrandingResolu,
    t: Option<BrandingNiveau>,
    e: Option<BrandingNiveau>,
) -> bool {
    let t = ou_vide(t);
    let e = ou_vide(e);
    &&& vue_champ(r.logo_objet_cle) == champ_attendu(e.logo_objet_cle, t.logo_objet_cle)
    &&& vue_champ(r.couleur_primaire) == champ_attendu(e.couleur_primaire, t.couleur_primaire)
    &&& vue_champ(r.entete_document) == champ_attendu(e.entete_document, t.entete_document)
    &&& vue_champ(r.pied_document) == champ_attendu(e.pied_document, t.pied_document)
    &&& vue_champ(r.mentions_legales) == champ_attendu(e.mentions_legales, t.mentions_legales)
    &&& vue_champ(r.coordonnees) == champ_attendu(e.coordonnees, t.coordonnees)
}

fn resoudre_champ(etablissement: Option<String>, tenant: Option<String>) -> (r: Option<ChampResolu>)
    ensures
        vue_champ(r) == champ_attendu(etablissement, tenant),
{
    match etablissement {
        Some(v) => Some(ChampResolu { valeur: v, origine: "ETABLISSEMENT".to_owned() }),
        None => match tenant {
            Some(v) => Some(ChampResolu { valeur: v, origine: "TENANT".to_owned() }),
            None => None,
        },
    }
}

/// Fusionne deux niveaux, champ par champ, et rend l'origine de chacun.
pub fn fusionner(tenant: Option<BrandingNiveau>, etablissement: Option<BrandingNiveau>) -> (r:
    BrandingResolu)
    ensures
        fusion_conforme(r, tenant, etablissement),
{
    let t = match tenant {
        Some(n) => n,
        None => BrandingNiveau::vide(),
    };
    let e = match etablissement {
        Some(n) => n,
        None => BrandingNiveau::vide(),
    };
    BrandingResolu {
        logo_objet_cle: resoudre_champ(e.logo_objet_cle, t.logo_objet_cle),
        couleur_primaire: resoudre_champ(e.couleur_primaire, t.couleur_primaire),
        entete_document: resoudre_champ(e.entete_document, t.entete_document),
        pied_document: resoudre_champ(e.pied_document, t.pied_document),
        mentions_legales: resoudre_champ(e.mentions_legales, t.mentions_legales),
        coordonnees: resoudre_champ(e.coordonnees, t.coordonnees),
    }
}

/// Sans niveau établissement, l'identité résolue est celle du tenant telle quelle, chaque champ
/// d'origine `TENANT` ; et un champ posé à l'établissement l'emporte toujours sur le tenant.
pub proof fn loi_surcharge_par_champ(
    r: BrandingResolu,
    t: BrandingNiveau,
    e: Option<BrandingNiveau>,
)
    requires
        fusion_conforme(r, Some(t), e),
    ensures
        e is None ==> vue_champ(r.entete_document) == match t.entete_document {
            Some(v) => Some((v@, "TENANT"@)),
            None => None,
        },
        e is None ==> vue_champ(r.couleur_primaire) == match t.couleur_primaire {
            Some(v) => Some((v@, "TENANT"@)),
            None => None,
        },
        e is Some && e->0.couleur_primaire is Some ==> vue_champ(r.couleur_primaire) == Some(
            (e->0.couleur_primaire->0@, "ETABLISSEMENT"@),
        ),
{
}

/// `c` est la valeur `v`, d'origine `origine` — ou rien si `v` est absente.
pub open spec fn resolu_depuis(c: Option<ChampResolu>, v: Option<String>, origine: Seq<char>) -> bool {
    match v {
        Some(v) => c matches Some(x) && x.valeur@ == v@ && x.origine@ == origine,
        None => c is None,
    }
}

/// Un champ posé à l'établissement `ve` l'emporte, d'origine `ETABLISSEMENT` ; sinon le champ du
/// tenant `vt`, d'origine `TENANT` ; sinon rien.
pub open spec fn surcharge(c: Option<ChampResolu>, ve: Option<String>, vt: Option<String>) -> bool {
    if ve is Some {
        resolu_depuis(c, ve, "ETABLISSEMENT"@)
    } else {
        resolu_depuis(c, vt, "TENANT"@)
    }
}

/// La fusion se fait **champ par champ**, pour chacun des six champs : l'établissement surcharge
/// le tenant là où il a posé une valeur, et seulement là. Un niveau absent ne pose rien : sans
/// niveau établissement, chaque champ vient du tenant ; sans niveau tenant, de l'établissement.
pub proof fn loi_fusion_champ_par_champ(
    r: BrandingResolu,
    t: Option<BrandingNiveau>,
    e: Option<BrandingNiveau>,
)
    requires
        fusion_conforme(r, t, e),
    ensures
        (t is Some && e is Some) ==> {
            let t = t->0;
            let e = e->0;
            &&& surcharge(r.logo_objet_cle, e.logo_objet_cle, t.logo_objet_cle)
            &&& surcharge(r.couleur_primaire, e.couleur_primaire, t.couleur_primaire)
            &&& surcharge(r.entete_document, e.entete_document, t.entete_document)
            &&& surcharge(r.pied_document, e.pied_document, t.pied_document)
            &&& surcharge(r.mentions_legales, e.mentions_legales, t.mentions_legales)
            &&& surcharge(r.coordonnees, e.coordonnees, t.coordonnees)
        },
        (t is Some && e is None) ==> {
            let t = t->0;
            &&& resolu_depuis(r.logo_objet_cle, t.logo_objet_cle, "TENANT"@)
            &&& resolu_depuis(r.couleur_primaire, t.couleur_primaire, "TENANT"@)
            &&& resolu_depuis(r.entete_document, t.entete_document, "TENANT"@)
            &&& resolu_depuis(r.pied_document, t.pied_document, "TENANT"@)
            &&& resolu_depuis(r.mentions_legales, t.mentions_legales, "TENANT"@)
            &&& resolu_depuis(r.coordonnees, t.coordonnees, "TENANT"@)
        },
        (t is None && e is Some) ==> {
            let e = e->0;
            &&& resolu_depuis(r.logo_objet_cle, e.logo_objet_cle, "ETABLISSEMENT"@)
            &&& resolu_depuis(r.couleur_primaire, e.couleur_primaire, "ETABLISSEMENT"@)
            &&& resolu_depuis(r.entete_document, e.entete_document, "ETABLISSEMENT"@)
            &&& resolu_depuis(r.pied_document, e.pied_document, "ETABLISSEMENT"@)
            &&& resolu_depuis(r.mentions_legales, e.mentions_legales, "ETABLISSEMENT"@)
            &&& resolu_depuis(r.coordonnees, e.coordonnees, "ETABLISSEMENT"@)
        },
        (t is None && e is None) ==> {
            &&& r.logo_objet_cle is None
            &&& r.couleur_primaire is None
            &&& r.entete_document is None
            &&& r.pied_document is None
            &&& r.mentions_legales is None
            &&& r.coordonnees is None
        },
{
}

// =================================================================================================
//  Les champs touchés par une écriture
// =================================================================================================

/// `s`, augmenté de `champ` quand les deux valeurs diffèrent.
pub open spec fn si_touche(
    s: Seq<Seq<char>>,
    champ: Seq<char>,
    avant: Option<String>,
    apres: Option<String>,
) -> Seq<Seq<char>> {
    if vue_option(avant) != vue_option(apres) {
        s.push(champ)
    } else {
        s
    }
}

/// Les champs qui diffèrent entre deux niveaux, dans l'ordre de déclaration.
pub open spec fn touches_attendus(avant: BrandingNiveau, apres: BrandingNiveau) -> Seq<Seq<char>> {
    let s1 = si_touche(Seq::empty(), "logo_objet_cle"@, avant.logo_objet_cle, apres.logo_objet_cle);
    let s2 = si_touche(s1, "couleur_primaire"@, avant.couleur_primaire, apres.couleur_primaire);
    let s3 = si_touche(s2, "entete_document"@, avant.entete_document, apres.entete_document);
    let s4 = si_touche(s3, "pied_document"@, avant.pied_document, apres.pied_document);
    let s5 = si_touche(s4, "mentions_legales"@, avant.mentions_legales, apres.mentions_legales);
    si_touche(s5, "coordonnees"@, avant.coordonnees, apres.coordonnees)
}

/// La vue d'une liste de noms de champs.
pub open spec fn vue_noms(v: Seq<&'static str>) -> Seq<Seq<char>> {
    v.map_values(|c: &'static str| c@)
}

fn toucher(
    touches: &mut Vec<&'static str>,
    champ: &'static str,
    avant: &Option<String>,
    apres: &Option<String>,
)
    ensures
        vue_noms(final(touches)@) == si_touche(vue_noms(old(touches)@), champ@, *avant, *apres),
{
    if !egal_option(avant, apres) {
        let ghost s = touches@;
        touches.push(champ);
        assert(vue_noms(touches@) =~= vue_noms(s).push(champ@));
    }
}

/// Quels champs ont changé, pour la charge utile de l'événement ; sans niveau d'avant, tout champ
/// posé est touché.
pub fn champs_touches(avant: Option<&BrandingNiveau>, apres: &BrandingNiveau) -> (r: Vec<
    &'static str,
>)
    ensures
        vue_noms(r@) == touches_attendus(
            match avant {
                Some(a) => *a,
                None => niveau_vide(),
            },
            *apres,
        ),
{
    let vide = BrandingNiveau::vide();
    let a = match avant {
        Some(a) => a,
        None => &vide,
    };
    let mut touches: Vec<&'static str> = Vec::new();
    assert(vue_noms(touches@) =~= Seq::empty());
    toucher(&mut touches, "logo_objet_cle", &a.logo_objet_cle, &apres.logo_objet_cle);
    toucher(&mut touches, "couleur_primaire", &a.couleur_primaire, &apres.couleur_primaire);
    toucher(&mut touches, "entete_document", &a.entete_document, &apres.entete_document);
    toucher(&mut touches, "pied_document", &a.pied_document, &apres.pied_document);
    toucher(&mut touches, "mentions_legales", &a.mentions_legales, &apres.mentions_legales);
    toucher(&mut touches, "coordonnees", &a.coordonnees, &apres.coordonnees);
    touches
}

/// Réécrire un niveau à l'identique ne touche aucun champ — et n'émet donc aucun événement.
pub proof fn loi_reecriture_identique(n: BrandingNiveau)
    ensures
        touches_attendus(n, n).len() == 0,
{
}

// =================================================================================================
//  Le document de test
// =================================================================================================

/// La valeur d'un champ résolu, vide s'il n'est pas résolu.
pub open spec fn valeur_champ(c: Option<ChampResolu>) -> Seq<char> {
    match c {
        Some(c) => c.valeur@,
        None => Seq::empty(),
    }
}

/// `v` suivi d'un saut de ligne, ou rien si `v` est vide.
pub open spec fn ligne_si_non_vide(v: Seq<char>) -> Seq<char> {
    if v.len() == 0 {
        Seq::empty()
    } else {
        v.push('\n')
    }
}

/// Le document de test : l'en-tête, le nom de l'établissement, les coordonnées, le titre de
/// l'aperçu, les mentions légales, le pied, et **toujours en dernier** la mention non fiscale.
pub open spec fn document_test(identite: BrandingResolu, nom: Seq<char>) -> Seq<char> {
    valeur_champ(identite.entete_document).push('\n') + nom.push('\n') + ligne_si_non_vide(
        valeur_champ(identite.coordonnees),
    ) + TITRE_APERCU@ + ligne_si_non_vide(valeur_champ(identite.mentions_legales))
        + ligne_si_non_vide(valeur_champ(identite.pied_document)) + seq!['\n']
        + MENTION_NON_FISCALE@ + seq!['\n']
}

fn valeur_de(c: &Option<ChampResolu>) -> (r: String)
    ensures
        r@ == valeur_champ(*c),
{
    match c {
        Some(c) => c.valeur.clone(),
        None => String::new(),
    }
}

fn ajouter_ligne_si_non_vide(document: &mut String, v: &String)
    ensures
        final(document)@ == old(document)@ + ligne_si_non_vide(v@),
{
    if v.as_str().unicode_len() != 0 {
        ajouter_texte(document, v.as_str());
        pousser(document, '\n');
        assert(document@ =~= old(document)@ + v@.push('\n'));
    } else {
        assert(document@ =~= old(document)@ + Seq::<char>::empty());
    }
}

/// Rend le document de test — un aperçu, sans rien enregistrer. La mention non fiscale est
/// ajoutée ici, toujours, et toujours en dernier.
pub fn rendre_document_test(identite: &BrandingResolu, nom_etablissement: &str) -> (r: String)
    ensures
        r@ == document_test(*identite, nom_etablissement@),
        r@.subrange(r@.len() - MENTION_NON_FISCALE@.len() - 1, r@.len() as int)
            == MENTION_NON_FISCALE@.push('\n'),
{
    let mut document = String::new();
    let entete = valeur_de(&identite.entete_document);
    ajouter_texte(&mut document, entete.as_str());
    pousser(&mut document, '\n');
    ajouter_texte(&mut document, nom_etablissement);
    pousser(&mut document, '\n');
    let ghost d1 = document@;
    assert(d1 =~= valeur_champ(identite.entete_document).push('\n') + nom_etablissement@.push(
        '\n',
    ));
    let coordonnees = valeur_de(&identite.coordonnees);
    ajouter_ligne_si_non_vide(&mut document, &coordonnees);
    ajouter_texte(&mut document, TITRE_APERCU);
    let mentions = valeur_de(&identite.mentions_legales);
    ajouter_ligne_si_non_vide(&mut document, &mentions);
    let pied = valeur_de(&identite.pied_document);
    ajouter_ligne_si_non_vide(&mut document, &pied);
    let ghost d2 = document@;
    pousser(&mut document, '\n');
    ajouter_texte(&mut document, MENTION_NON_FISCALE);
    pousser(&mut document, '\n');
    let ghost fin = seq!['\n'] + MENTION_NON_FISCALE@ + seq!['\n'];
    assert(document@ =~= d2 + fin);
    assert(document@ =~= document_test(*identite, nom_etablissement@));
    assert(document@.subrange(
        document@.len() - MENTION_NON_FISCALE@.len() - 1,
        document@.len() as int,
    ) =~= MENTION_NON_FISCALE@.push('\n'));
    document
}

} // verus!
