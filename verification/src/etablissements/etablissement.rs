//! L'identité de l'établissement : validation des champs, reconstruction du classement, et la
//! modification qui émet un à trois événements selon ce qui a changé.

use vstd::prelude::*;

use crate::etablissements::{classement_de_colonnes, Classement};
use crate::temps::Horodatage;
use crate::texte::{copier_option, egal, egal_option, rogne, rogner, vue_option};

verus! {

/// Longueur maximale du nom, en caractères.
pub const NOM_MAX: usize = 200;

/// Avertissement rendu quand le fuseau change : un code, dont la phrase vit au catalogue i18n.
pub const AVERTISSEMENT_FUSEAU: &'static str = "fuseau_change";

/// Le refus du domaine de l'établissement, avec la valeur refusée quand il y en a une.
#[derive(Debug)]
pub enum ErreurEtablissement {
    NomInvalide,
    CommuneInvalide,
    FuseauInconnu(String),
    DeviseInvalide(String),
    /// Un nombre d'étoiles sans classement par étoiles, ou l'inverse.
    ClassementIncoherent(String),
    /// La devise ne se modifie plus après la première opération financière.
    DeviseFigee,
    NccInvalide,
    Inconnu,
    /// Une panne d'infrastructure — base, grand livre, contexte de tenant.
    Interne(String),
}

impl ErreurEtablissement {
    pub open spec fn code_spec(&self) -> Seq<char> {
        match self {
            ErreurEtablissement::NomInvalide => "nom_invalide"@,
            ErreurEtablissement::CommuneInvalide => "commune_invalide"@,
            ErreurEtablissement::FuseauInconnu(_) => "fuseau_inconnu"@,
            ErreurEtablissement::DeviseInvalide(_) => "devise_invalide"@,
            ErreurEtablissement::ClassementIncoherent(_) => "classement_incoherent"@,
            ErreurEtablissement::DeviseFigee => "devise_figee"@,
            ErreurEtablissement::NccInvalide => "ncc_invalide"@,
            ErreurEtablissement::Inconnu => "etablissement_inconnu"@,
            ErreurEtablissement::Interne(_) => "erreur_interne"@,
        }
    }

    /// Le code stable exposé par le contrat HTTP.
    pub fn code(&self) -> (r: &'static str)
        ensures
            r@ == self.code_spec(),
    {
        match self {
            ErreurEtablissement::NomInvalide => "nom_invalide",
            ErreurEtablissement::CommuneInvalide => "commune_invalide",
            ErreurEtablissement::FuseauInconnu(_) => "fuseau_inconnu",
            ErreurEtablissement::DeviseInvalide(_) => "devise_invalide",
            ErreurEtablissement::ClassementIncoherent(_) => "classement_incoherent",
            ErreurEtablissement::DeviseFigee => "devise_figee",
            ErreurEtablissement::NccInvalide => "ncc_invalide",
            ErreurEtablissement::Inconnu => "etablissement_inconnu",
            ErreurEtablissement::Interne(_) => "erreur_interne",
        }
    }

    /// La valeur refusée, quand il y en a une à nommer.
    pub fn valeur(&self) -> (r: Option<String>)
        ensures
            match self {
                ErreurEtablissement::FuseauInconnu(v) => r == Some(*v),
                ErreurEtablissement::DeviseInvalide(v) => r == Some(*v),
                ErreurEtablissement::ClassementIncoherent(v) => r == Some(*v),
                _ => r is None,
            },
    {
        match self {
            ErreurEtablissement::FuseauInconnu(v) => Some(v.clone()),
            ErreurEtablissement::DeviseInvalide(v) => Some(v.clone()),
            ErreurEtablissement::ClassementIncoherent(v) => Some(v.clone()),
            _ => None,
        }
    }
}

// =================================================================================================
//  La forme des champs
// =================================================================================================

/// Un caractère admis dans un identifiant de fuseau.
pub open spec fn car_fuseau(c: char) -> bool {
    ||| 'a' <= c <= 'z'
    ||| 'A' <= c <= 'Z'
    ||| '0' <= c <= '9'
    ||| c == '/'
    ||| c == '_'
    ||| c == '-'
    ||| c == '+'
}

/// `k` est la position de la première barre oblique de `t`.
pub open spec fn premiere_barre(t: Seq<char>, k: int) -> bool {
    &&& 0 <= k < t.len()
    &&& t[k] == '/'
    &&& forall|j: int| 0 <= j < k ==> t[j] != '/'
}

/// Le fuseau est-il un identifiant IANA **plausible** ? `UTC`, ou une région qui commence par une
/// majuscule, une barre, une ville non vide, et rien que des lettres, chiffres et `/ _ - +`. Une
/// vérification de forme, pas d'appartenance à la base IANA.
pub open spec fn fuseau_plausible(s: Seq<char>) -> bool {
    let t = rogne(s);
    ||| t == "UTC"@
    ||| {
        &&& exists|k: int| premiere_barre(t, k) && 0 < k && k + 1 < t.len()
        &&& 'A' <= t[0] <= 'Z'
        &&& forall|i: int| 0 <= i < t.len() ==> car_fuseau(#[trigger] t[i])
    }
}

/// Une devise a la forme ISO 4217 : trois lettres majuscules.
pub open spec fn devise_plausible(s: Seq<char>) -> bool {
    &&& s.len() == 3
    &&& forall|i: int| 0 <= i < 3 ==> 'A' <= #[trigger] s[i] <= 'Z'
}

fn car_fuseau_exec(c: char) -> (r: bool)
    ensures
        r == car_fuseau(c),
{
    ('a' <= c && c <= 'z') || ('A' <= c && c <= 'Z') || ('0' <= c && c <= '9') || c == '/' || c
        == '_' || c == '-' || c == '+'
}

/// Le fuseau est-il un identifiant IANA plausible ?
pub fn fuseau_connu(fuseau: &str) -> (r: bool)
    ensures
        r == fuseau_plausible(fuseau@),
{
    let t = rogner(fuseau);
    if egal(t, "UTC") {
        return true;
    }
    let n = t.unicode_len();
    let mut k: usize = 0;
    while k < n && t.get_char(k) != '/'
        invariant
            n == t@.len(),
            0 <= k <= n,
            forall|j: int| 0 <= j < k ==> t@[j] != '/',
        decreases n - k,
    {
        k = k + 1;
    }
    if k == n {
        assert(!exists|k2: int| premiere_barre(t@, k2) && 0 < k2 && k2 + 1 < t@.len()) by {
            if exists|k2: int| premiere_barre(t@, k2) && 0 < k2 && k2 + 1 < t@.len() {
                let k2 = choose|k2: int| premiere_barre(t@, k2) && 0 < k2 && k2 + 1 < t@.len();
                assert(t@[k2] != '/');
            }
        }
        return false;
    }
    assert(premiere_barre(t@, k as int));
    assert forall|k2: int| premiere_barre(t@, k2) implies k2 == k by {
        if k2 < k {
            assert(t@[k2] != '/');
        }
        if k < k2 {
            assert(t@[k as int] != '/');
        }
    }
    if k == 0 || k + 1 >= n {
        return false;
    }
    let c0 = t.get_char(0);
    if !('A' <= c0 && c0 <= 'Z') {
        return false;
    }
    let mut i: usize = 0;
    while i < n
        invariant
            n == t@.len(),
            0 <= i <= n,
            t@ == rogne(fuseau@),
            t@ != "UTC"@,
            forall|j: int| 0 <= j < i ==> car_fuseau(#[trigger] t@[j]),
        decreases n - i,
    {
        if !car_fuseau_exec(t.get_char(i)) {
            return false;
        }
        i = i + 1;
    }
    true
}

/// La devise a-t-elle la forme ISO 4217 — trois lettres majuscules ? Aucune liste fermée : la
/// validité d'une devise dans une juridiction relève de l'adaptateur de juridiction.
pub fn devise_valide(devise: &str) -> (r: bool)
    ensures
        r == devise_plausible(devise@),
{
    if devise.unicode_len() != 3 {
        return false;
    }
    let mut i: usize = 0;
    while i < 3
        invariant
            devise@.len() == 3,
            0 <= i <= 3,
            forall|j: int| 0 <= j < i ==> 'A' <= #[trigger] devise@[j] <= 'Z',
        decreases 3 - i,
    {
        let c = devise.get_char(i);
        if !('A' <= c && c <= 'Z') {
            return false;
        }
        i = i + 1;
    }
    true
}

/// Ce que la validation des champs rend.
pub open spec fn validation_champs(
    nom: Seq<char>,
    commune: Seq<char>,
    fuseau: Seq<char>,
    devise: Seq<char>,
    ncc: Option<Seq<char>>,
) -> Result<(), ErreurEtablissement> {
    if rogne(nom).len() == 0 || nom.len() > NOM_MAX {
        Err(ErreurEtablissement::NomInvalide)
    } else if rogne(commune).len() == 0 {
        Err(ErreurEtablissement::CommuneInvalide)
    } else if !fuseau_plausible(fuseau) {
        Err(ErreurEtablissement::FuseauInconnu(arbitrary()))
    } else if !devise_plausible(devise) {
        Err(ErreurEtablissement::DeviseInvalide(arbitrary()))
    } else if ncc is Some && rogne(ncc->0).len() == 0 {
        Err(ErreurEtablissement::NccInvalide)
    } else {
        Ok(())
    }
}

/// Le résultat `r` est celui de la validation : même issue, et la valeur refusée nommée.
pub open spec fn conforme_validation(
    r: Result<(), ErreurEtablissement>,
    nom: Seq<char>,
    commune: Seq<char>,
    fuseau: Seq<char>,
    devise: Seq<char>,
    ncc: Option<Seq<char>>,
) -> bool {
    match validation_champs(nom, commune, fuseau, devise, ncc) {
        Ok(_) => r is Ok,
        Err(ErreurEtablissement::FuseauInconnu(_)) => r matches Err(
            ErreurEtablissement::FuseauInconnu(v),
        ) && v@ == fuseau,
        Err(ErreurEtablissement::DeviseInvalide(_)) => r matches Err(
            ErreurEtablissement::DeviseInvalide(v),
        ) && v@ == devise,
        Err(e) => r == Err::<(), ErreurEtablissement>(e),
    }
}

/// Valide les champs d'un établissement, dans l'ordre : nom, commune, fuseau, devise, NCC.
pub fn valider_champs(
    nom: &str,
    commune: &str,
    fuseau: &str,
    devise: &str,
    ncc: Option<&str>,
) -> (r: Result<(), ErreurEtablissement>)
    ensures
        conforme_validation(
            r,
            nom@,
            commune@,
            fuseau@,
            devise@,
            match ncc {
                Some(v) => Some(v@),
                None => None,
            },
        ),
{
    if crate::texte::est_blanc(nom) || nom.unicode_len() > NOM_MAX {
        return Err(ErreurEtablissement::NomInvalide);
    }
    if crate::texte::est_blanc(commune) {
        return Err(ErreurEtablissement::CommuneInvalide);
    }
    if !fuseau_connu(fuseau) {
        return Err(ErreurEtablissement::FuseauInconnu(fuseau.to_owned()));
    }
    if !devise_valide(devise) {
        return Err(ErreurEtablissement::DeviseInvalide(devise.to_owned()));
    }
    match ncc {
        Some(v) => if crate::texte::est_blanc(v) {
            return Err(ErreurEtablissement::NccInvalide);
        },
        None => {},
    }
    Ok(())
}

// =================================================================================================
//  Le classement saisi
// =================================================================================================

/// Le classement qu'un corps de requête décrit, s'il est cohérent.
pub open spec fn classement_requete(code: Seq<char>, etoiles: Option<u8>) -> Option<Classement> {
    if code == "ETOILES"@ {
        match etoiles {
            Some(n) => if n > 0 {
                Some(Classement::Etoiles(n))
            } else {
                None
            },
            None => None,
        }
    } else if code == "NON_CLASSE"@ && etoiles is None {
        Some(Classement::NonClasse)
    } else if code == "RESIDENCE_MEUBLEE"@ && etoiles is None {
        Some(Classement::ResidenceMeublee)
    } else {
        None
    }
}

/// La valeur que le refus `classement_incoherent` nomme.
pub open spec fn motif_classement(code: Seq<char>, etoiles: Option<u8>) -> Seq<char> {
    if code == "ETOILES"@ {
        "ETOILES sans nombre d'étoiles strictement positif"@
    } else if (code == "NON_CLASSE"@ || code == "RESIDENCE_MEUBLEE"@) && etoiles is Some {
        code + " avec un nombre d'étoiles"@
    } else {
        code
    }
}

/// Reconstruit un classement depuis le couple `(code, étoiles)` d'un corps de requête ; un
/// couple incohérent est refusé en nommant ce qui ne va pas.
pub fn classement_depuis_requete(code: &str, etoiles: Option<u8>) -> (r: Result<
    Classement,
    ErreurEtablissement,
>)
    ensures
        match classement_requete(code@, etoiles) {
            Some(c) => r == Ok::<Classement, ErreurEtablissement>(c),
            None => r matches Err(ErreurEtablissement::ClassementIncoherent(v)) && v@
                == motif_classement(code@, etoiles),
        },
{
    let etoiles_code = egal(code, "ETOILES");
    if etoiles_code {
        match etoiles {
            Some(n) => if n > 0 {
                return Ok(Classement::Etoiles(n));
            },
            None => {},
        }
        return Err(
            ErreurEtablissement::ClassementIncoherent(
                "ETOILES sans nombre d'étoiles strictement positif".to_owned(),
            ),
        );
    }
    let non_classe = egal(code, "NON_CLASSE");
    let residence = egal(code, "RESIDENCE_MEUBLEE");
    match etoiles {
        None => {
            if non_classe {
                return Ok(Classement::NonClasse);
            }
            if residence {
                return Ok(Classement::ResidenceMeublee);
            }
        },
        Some(_) => {
            if non_classe || residence {
                let mut motif = code.to_owned();
                crate::texte::ajouter_texte(&mut motif, " avec un nombre d'étoiles");
                return Err(ErreurEtablissement::ClassementIncoherent(motif));
            }
        },
    }
    Err(ErreurEtablissement::ClassementIncoherent(code.to_owned()))
}

// =================================================================================================
//  La création
// =================================================================================================

/// Demande de création. Le tenant n'y figure pas : il vient du contexte d'authentification.
#[derive(Debug, Clone)]
pub struct CreerEtablissement {
    /// Identifiant généré par le client — ce qui rend le rejeu inoffensif.
    pub id: u128,
    pub nom: String,
    pub juridiction: String,
    pub classement: Classement,
    pub commune: String,
    pub fuseau_horaire: String,
    pub devise: String,
    pub adresse: Option<String>,
    pub ncc: Option<String>,
}

/// Un texte facultatif rogné, et retiré s'il ne reste rien.
pub open spec fn rogne_non_vide(o: Option<String>) -> Option<Seq<char>> {
    match o {
        Some(v) => if rogne(v@).len() == 0 {
            None
        } else {
            Some(rogne(v@))
        },
        None => None,
    }
}

/// Un texte facultatif rogné.
pub open spec fn rogne_option(o: Option<String>) -> Option<Seq<char>> {
    match o {
        Some(v) => Some(rogne(v@)),
        None => None,
    }
}

fn rogner_option(o: &Option<String>) -> (r: Option<String>)
    ensures
        vue_option(r) == rogne_option(*o),
{
    match o {
        Some(v) => Some(rogner(v.as_str()).to_owned()),
        None => None,
    }
}

fn sans_vide(o: Option<String>) -> (r: Option<String>)
    ensures
        vue_option(r) == match o {
            Some(v) => if v@.len() == 0 {
                None
            } else {
                Some(v@)
            },
            None => None,
        },
{
    match o {
        Some(v) => if v.as_str().unicode_len() == 0 {
            None
        } else {
            Some(v)
        },
        None => None,
    }
}

/// Valide une demande de création : nom, commune, adresse et NCC rognés, une adresse ou un NCC
/// vides retirés, puis les champs validés.
pub fn valider_creation(demande: CreerEtablissement) -> (r: Result<
    CreerEtablissement,
    ErreurEtablissement,
>)
    ensures
        match r {
            Ok(c) => {
                &&& validation_champs(
                    rogne(demande.nom@),
                    rogne(demande.commune@),
                    demande.fuseau_horaire@,
                    demande.devise@,
                    rogne_option(demande.ncc),
                ) is Ok
                &&& c.id == demande.id
                &&& c.nom@ == rogne(demande.nom@)
                &&& c.juridiction == demande.juridiction
                &&& c.classement == demande.classement
                &&& c.commune@ == rogne(demande.commune@)
                &&& c.fuseau_horaire == demande.fuseau_horaire
                &&& c.devise == demande.devise
                &&& vue_option(c.adresse) == rogne_non_vide(demande.adresse)
                &&& vue_option(c.ncc) == rogne_non_vide(demande.ncc)
            },
            Err(e) => conforme_validation(
                Err(e),
                rogne(demande.nom@),
                rogne(demande.commune@),
                demande.fuseau_horaire@,
                demande.devise@,
                rogne_option(demande.ncc),
            ),
        },
{
    let nom = rogner(demande.nom.as_str()).to_owned();
    let commune = rogner(demande.commune.as_str()).to_owned();
    let ncc = rogner_option(&demande.ncc);
    let adresse = sans_vide(rogner_option(&demande.adresse));
    let controle = match &ncc {
        Some(v) => valider_champs(
            nom.as_str(),
            commune.as_str(),
            demande.fuseau_horaire.as_str(),
            demande.devise.as_str(),
            Some(v.as_str()),
        ),
        None => valider_champs(
            nom.as_str(),
            commune.as_str(),
            demande.fuseau_horaire.as_str(),
            demande.devise.as_str(),
            None,
        ),
    };
    match controle {
        Ok(()) => {},
        Err(e) => {
            return Err(e);
        },
    }
    let ncc = sans_vide(ncc);
    Ok(
        CreerEtablissement {
            id: demande.id,
            nom,
            juridiction: demande.juridiction,
            classement: demande.classement,
            commune,
            fuseau_horaire: demande.fuseau_horaire,
            devise: demande.devise,
            adresse,
            ncc,
        },
    )
}

// =================================================================================================
//  La modification
// =================================================================================================

/// Un établissement tel que l'API le rend : classement et étoiles en deux champs, comme en base.
#[derive(Debug, Clone)]
pub struct EtablissementVue {
    pub id: u128,
    pub nom: String,
    /// Sélectionne l'adaptateur de juridiction ; n'encode aucune règle fiscale.
    pub juridiction: String,
    pub classement: String,
    /// Renseigné si et seulement si le classement est par étoiles.
    pub etoiles: Option<u8>,
    pub commune: String,
    /// Le fuseau appartient à l'établissement, pas au serveur.
    pub fuseau_horaire: String,
    pub devise: String,
    pub adresse: Option<String>,
    pub ncc: Option<String>,
    pub cree_le: Horodatage,
    pub modifie_le: Horodatage,
}

/// Les étoiles d'une vue, dans le type de la colonne.
pub open spec fn etoiles_colonne(etoiles: Option<u8>) -> Option<i16> {
    match etoiles {
        Some(n) => Some(n as i16),
        None => None,
    }
}

/// Les étoiles lues en base : un nombre hors de `u8` n'en est pas un, plutôt que d'être tronqué en
/// un nombre plausible.
pub fn etoiles_lues(colonne: Option<i16>) -> (r: Option<u8>)
    ensures
        r == match colonne {
            Some(n) => if 0 <= n <= 255 {
                Some(n as u8)
            } else {
                None
            },
            None => None,
        },
{
    match colonne {
        Some(n) => if 0 <= n && n <= 255 {
            Some(n as u8)
        } else {
            None
        },
        None => None,
    }
}

impl EtablissementVue {
    /// Le classement de la vue, s'il est lisible.
    pub fn classement_type(&self) -> (r: Option<Classement>)
        ensures
            r == classement_de_colonnes(self.classement@, etoiles_colonne(self.etoiles)),
    {
        let etoiles: Option<i16> = match self.etoiles {
            Some(n) => Some(n as i16),
            None => None,
        };
        Classement::depuis_colonnes(self.classement.as_str(), etoiles)
    }
}

/// Demande de modification — tout champ absent est laissé tel quel.
#[derive(Debug, Clone)]
pub struct ModifierEtablissement {
    pub nom: Option<String>,
    pub classement: Option<Classement>,
    pub commune: Option<String>,
    pub fuseau_horaire: Option<String>,
    pub devise: Option<String>,
    pub adresse: Option<String>,
    pub ncc: Option<String>,
}

/// Les valeurs finales d'une modification, en vue.
pub struct FusionVue {
    pub nom: Seq<char>,
    pub classement: Classement,
    pub classement_avant: Classement,
    pub commune: Seq<char>,
    pub fuseau_horaire: Seq<char>,
    pub devise: Seq<char>,
    pub adresse: Option<Seq<char>>,
    pub ncc: Option<Seq<char>>,
}

/// Les valeurs finales d'une modification : chaque champ demandé, ou la valeur d'avant.
#[derive(Debug, Clone)]
pub struct Fusion {
    pub nom: String,
    pub classement: Classement,
    pub classement_avant: Classement,
    pub commune: String,
    pub fuseau_horaire: String,
    pub devise: String,
    pub adresse: Option<String>,
    pub ncc: Option<String>,
}

impl Fusion {
    pub open spec fn vue(&self) -> FusionVue {
        FusionVue {
            nom: self.nom@,
            classement: self.classement,
            classement_avant: self.classement_avant,
            commune: self.commune@,
            fuseau_horaire: self.fuseau_horaire@,
            devise: self.devise@,
            adresse: vue_option(self.adresse),
            ncc: vue_option(self.ncc),
        }
    }
}

/// La valeur demandée, ou celle d'avant.
pub open spec fn choisi(demande: Option<String>, avant: String) -> Seq<char> {
    match demande {
        Some(v) => v@,
        None => avant@,
    }
}

/// La valeur facultative demandée, ou celle d'avant.
pub open spec fn choisi_option(demande: Option<String>, avant: Option<String>) -> Option<Seq<char>> {
    match demande {
        Some(v) => Some(v@),
        None => vue_option(avant),
    }
}

/// Les valeurs finales qu'une demande donne, le classement d'avant étant `ca`.
pub open spec fn fusion_attendue(
    avant: EtablissementVue,
    demande: ModifierEtablissement,
    ca: Classement,
) -> FusionVue {
    FusionVue {
        nom: choisi(demande.nom, avant.nom),
        classement: match demande.classement {
            Some(c) => c,
            None => ca,
        },
        classement_avant: ca,
        commune: choisi(demande.commune, avant.commune),
        fuseau_horaire: choisi(demande.fuseau_horaire, avant.fuseau_horaire),
        devise: choisi(demande.devise, avant.devise),
        adresse: choisi_option(demande.adresse, avant.adresse),
        ncc: choisi_option(demande.ncc, avant.ncc),
    }
}

fn choisir(demande: &Option<String>, avant: &String) -> (r: String)
    ensures
        r@ == choisi(*demande, *avant),
{
    match demande {
        Some(v) => v.clone(),
        None => avant.clone(),
    }
}

fn choisir_option(demande: &Option<String>, avant: &Option<String>) -> (r: Option<String>)
    ensures
        vue_option(r) == choisi_option(*demande, *avant),
{
    match demande {
        Some(v) => Some(v.clone()),
        None => copier_option(avant),
    }
}

/// Fusionne une demande de modification avec l'établissement d'avant, et valide le résultat.
///
/// Un classement illisible en base est refusé en nommant la valeur lue.
pub fn fusionner_modification(avant: &EtablissementVue, demande: &ModifierEtablissement) -> (r:
    Result<Fusion, ErreurEtablissement>)
    ensures
        match classement_de_colonnes(avant.classement@, etoiles_colonne(avant.etoiles)) {
            None => r matches Err(ErreurEtablissement::ClassementIncoherent(v)) && v@
                == avant.classement@,
            Some(ca) => {
                let f = fusion_attendue(*avant, *demande, ca);
                match r {
                    Ok(fusion) => fusion.vue() == f && validation_champs(
                        f.nom,
                        f.commune,
                        f.fuseau_horaire,
                        f.devise,
                        f.ncc,
                    ) is Ok,
                    Err(e) => conforme_validation(
                        Err(e),
                        f.nom,
                        f.commune,
                        f.fuseau_horaire,
                        f.devise,
                        f.ncc,
                    ),
                }
            },
        },
{
    let classement_avant = match avant.classement_type() {
        Some(c) => c,
        None => {
            return Err(ErreurEtablissement::ClassementIncoherent(avant.classement.clone()));
        },
    };
    let nom = choisir(&demande.nom, &avant.nom);
    let classement = match demande.classement {
        Some(c) => c,
        None => classement_avant,
    };
    let commune = choisir(&demande.commune, &avant.commune);
    let fuseau_horaire = choisir(&demande.fuseau_horaire, &avant.fuseau_horaire);
    let devise = choisir(&demande.devise, &avant.devise);
    let adresse = choisir_option(&demande.adresse, &avant.adresse);
    let ncc = choisir_option(&demande.ncc, &avant.ncc);
    let controle = match &ncc {
        Some(v) => valider_champs(
            nom.as_str(),
            commune.as_str(),
            fuseau_horaire.as_str(),
            devise.as_str(),
            Some(v.as_str()),
        ),
        None => valider_champs(
            nom.as_str(),
            commune.as_str(),
            fuseau_horaire.as_str(),
            devise.as_str(),
            None,
        ),
    };
    match controle {
        Ok(()) => {},
        Err(e) => {
            return Err(e);
        },
    }
    let fusion = Fusion {
        nom,
        classement,
        classement_avant,
        commune,
        fuseau_horaire,
        devise,
        adresse,
        ncc,
    };
    assert(fusion.vue() == fusion_attendue(*avant, *demande, classement_avant));
    Ok(fusion)
}

/// Un champ modifié, avec sa valeur d'avant et d'après — `None` pour une valeur nulle.
#[derive(Debug, Clone)]
pub struct Changement {
    pub champ: &'static str,
    pub avant: Option<String>,
    pub apres: Option<String>,
}

/// Un changement, en vue : le nom du champ, et les valeurs d'avant et d'après.
pub open spec fn vue_changement(c: Changement) -> (Seq<char>, Option<Seq<char>>, Option<Seq<char>>) {
    (c.champ@, vue_option(c.avant), vue_option(c.apres))
}

/// Les champs modifiés d'une modification, dans l'ordre où ils ont été notés.
#[derive(Debug, Clone)]
pub struct Changements {
    pub champs: Vec<Changement>,
}

impl Changements {
    /// Les changements, en vue.
    pub open spec fn vue(&self) -> Seq<(Seq<char>, Option<Seq<char>>, Option<Seq<char>>)> {
        self.champs@.map_values(|c: Changement| vue_changement(c))
    }

    /// Note un changement à la suite des précédents.
    pub fn ajouter(&mut self, champ: &'static str, avant: Option<String>, apres: Option<String>)
        ensures
            final(self).vue() == old(self).vue().push((champ@, vue_option(avant), vue_option(apres))),
    {
        let ghost s = self.vue();
        self.champs.push(Changement { champ, avant, apres });
        assert(self.vue() =~= s.push((champ@, vue_option(avant), vue_option(apres))));
    }

    /// Le champ `champ` a-t-il été noté ?
    pub fn contient(&self, champ: &str) -> (r: bool)
        ensures
            r == exists|i: int| 0 <= i < self.vue().len() && (#[trigger] self.vue()[i]).0 == champ@,
    {
        let mut i: usize = 0;
        while i < self.champs.len()
            invariant
                0 <= i <= self.champs@.len(),
                forall|j: int| 0 <= j < i ==> (#[trigger] self.vue()[j]).0 != champ@,
            decreases self.champs@.len() - i,
        {
            if egal(self.champs[i].champ, champ) {
                assert(self.vue()[i as int].0 == champ@);
                return true;
            }
            i = i + 1;
        }
        false
    }

    /// Aucun champ n'a été noté.
    pub fn est_vide(&self) -> (r: bool)
        ensures
            r == (self.vue().len() == 0),
    {
        self.champs.len() == 0
    }
}

impl Default for Changements {
    fn default() -> (r: Self)
        ensures
            r.vue() == Seq::<(Seq<char>, Option<Seq<char>>, Option<Seq<char>>)>::empty(),
    {
        let r = Changements { champs: Vec::new() };
        assert(r.vue() =~= Seq::<(Seq<char>, Option<Seq<char>>, Option<Seq<char>>)>::empty());
        r
    }
}

/// `s`, augmenté du changement `(champ, avant, apres)` quand les deux valeurs diffèrent.
pub open spec fn si_change(
    s: Seq<(Seq<char>, Option<Seq<char>>, Option<Seq<char>>)>,
    champ: Seq<char>,
    avant: Option<Seq<char>>,
    apres: Option<Seq<char>>,
) -> Seq<(Seq<char>, Option<Seq<char>>, Option<Seq<char>>)> {
    if avant != apres {
        s.push((champ, avant, apres))
    } else {
        s
    }
}

/// Les changements d'une modification, dans l'ordre : nom, commune, devise, adresse, NCC. Le
/// classement et le fuseau ont leur propre événement.
pub open spec fn changements_attendus(avant: EtablissementVue, f: FusionVue) -> Seq<
    (Seq<char>, Option<Seq<char>>, Option<Seq<char>>),
> {
    let s1 = si_change(Seq::empty(), "nom"@, Some(avant.nom@), Some(f.nom));
    let s2 = si_change(s1, "commune"@, Some(avant.commune@), Some(f.commune));
    let s3 = si_change(s2, "devise"@, Some(avant.devise@), Some(f.devise));
    let s4 = si_change(s3, "adresse"@, vue_option(avant.adresse), f.adresse);
    si_change(s4, "ncc"@, vue_option(avant.ncc), f.ncc)
}

/// Ce qu'une modification écrit : les champs changés, et si le classement ou le fuseau, qui ont
/// chacun leur événement, ont changé.
#[derive(Debug, Clone)]
pub struct PlanModification {
    pub changements: Changements,
    pub classement_change: bool,
    pub fuseau_change: bool,
    /// `Some("fuseau_change")` quand le fuseau a changé.
    pub avertissement: Option<&'static str>,
}

impl PlanModification {
    /// Rien n'a changé : ni écriture, ni événement, et la date de modification n'est pas touchée.
    pub fn rien_a_ecrire(&self) -> (r: bool)
        ensures
            r == (self.changements.vue().len() == 0 && !self.classement_change && !self.fuseau_change),
    {
        self.changements.est_vide() && !self.classement_change && !self.fuseau_change
    }
}

fn noter(
    changements: &mut Changements,
    champ: &'static str,
    avant: Option<String>,
    apres: Option<String>,
)
    ensures
        final(changements).vue() == si_change(
            old(changements).vue(),
            champ@,
            vue_option(avant),
            vue_option(apres),
        ),
{
    if !egal_option(&avant, &apres) {
        changements.ajouter(champ, avant, apres);
    }
}

/// Décide ce qu'une modification validée écrit. Un changement de devise est refusé dès qu'une
/// opération financière existe.
pub fn planifier_modification(
    avant: &EtablissementVue,
    fusion: &Fusion,
    operations_financieres: i64,
) -> (r: Result<PlanModification, ErreurEtablissement>)
    ensures
        fusion.devise@ != avant.devise@ && operations_financieres > 0 ==> r
            == Err::<PlanModification, ErreurEtablissement>(ErreurEtablissement::DeviseFigee),
        !(fusion.devise@ != avant.devise@ && operations_financieres > 0) ==> match r {
            Ok(p) => {
                &&& p.changements.vue() == changements_attendus(*avant, fusion.vue())
                &&& p.classement_change == (fusion.classement != fusion.classement_avant)
                &&& p.fuseau_change == (fusion.fuseau_horaire@ != avant.fuseau_horaire@)
                &&& if p.fuseau_change {
                    p.avertissement matches Some(a) && a@ == "fuseau_change"@
                } else {
                    p.avertissement is None
                }
            },
            Err(_) => false,
        },
{
    let devise_change = !egal(fusion.devise.as_str(), avant.devise.as_str());
    if devise_change && operations_financieres > 0 {
        return Err(ErreurEtablissement::DeviseFigee);
    }
    let mut changements = Changements::default();
    noter(&mut changements, "nom", Some(avant.nom.clone()), Some(fusion.nom.clone()));
    noter(&mut changements, "commune", Some(avant.commune.clone()), Some(fusion.commune.clone()));
    noter(&mut changements, "devise", Some(avant.devise.clone()), Some(fusion.devise.clone()));
    noter(&mut changements, "adresse", copier_option(&avant.adresse), copier_option(&fusion.adresse));
    noter(&mut changements, "ncc", copier_option(&avant.ncc), copier_option(&fusion.ncc));
    let classement_change = fusion.classement != fusion.classement_avant;
    let fuseau_change = !egal(fusion.fuseau_horaire.as_str(), avant.fuseau_horaire.as_str());
    let avertissement = if fuseau_change {
        Some(AVERTISSEMENT_FUSEAU)
    } else {
        None
    };
    Ok(PlanModification { changements, classement_change, fuseau_change, avertissement })
}

/// Une demande qui ne change aucune valeur — chaque champ absent, ou égal à celui d'avant — ne
/// produit ni changement, ni changement de classement, ni changement de fuseau : aucun événement.
pub proof fn loi_modification_sans_effet(
    avant: EtablissementVue,
    demande: ModifierEtablissement,
    ca: Classement,
)
    requires
        demande.nom matches Some(v) ==> v@ == avant.nom@,
        demande.classement matches Some(c) ==> c == ca,
        demande.commune matches Some(v) ==> v@ == avant.commune@,
        demande.fuseau_horaire matches Some(v) ==> v@ == avant.fuseau_horaire@,
        demande.devise matches Some(v) ==> v@ == avant.devise@,
        demande.adresse matches Some(v) ==> vue_option(avant.adresse) == Some(v@),
        demande.ncc matches Some(v) ==> vue_option(avant.ncc) == Some(v@),
    ensures
        changements_attendus(avant, fusion_attendue(avant, demande, ca)).len() == 0,
        fusion_attendue(avant, demande, ca).classement == ca,
        fusion_attendue(avant, demande, ca).fuseau_horaire == avant.fuseau_horaire@,
        fusion_attendue(avant, demande, ca).devise == avant.devise@,
{
}

/// Une modification remplace exactement les champs qu'elle porte : chaque champ présent dans la
/// demande devient la valeur finale, chaque champ absent garde la valeur d'avant. Le classement
/// d'avant est rappelé tel quel.
pub proof fn loi_la_demande_l_emporte(
    avant: EtablissementVue,
    demande: ModifierEtablissement,
    ca: Classement,
)
    ensures
        ({
            let f = fusion_attendue(avant, demande, ca);
            &&& demande.nom matches Some(v) ==> f.nom == v@
            &&& demande.nom is None ==> f.nom == avant.nom@
            &&& demande.classement matches Some(c) ==> f.classement == c
            &&& demande.classement is None ==> f.classement == ca
            &&& f.classement_avant == ca
            &&& demande.commune matches Some(v) ==> f.commune == v@
            &&& demande.commune is None ==> f.commune == avant.commune@
            &&& demande.fuseau_horaire matches Some(v) ==> f.fuseau_horaire == v@
            &&& demande.fuseau_horaire is None ==> f.fuseau_horaire == avant.fuseau_horaire@
            &&& demande.devise matches Some(v) ==> f.devise == v@
            &&& demande.devise is None ==> f.devise == avant.devise@
            &&& demande.adresse matches Some(v) ==> f.adresse == Some(v@)
            &&& demande.adresse is None ==> f.adresse == match avant.adresse {
                Some(a) => Some(a@),
                None => None,
            }
            &&& demande.ncc matches Some(v) ==> f.ncc == Some(v@)
            &&& demande.ncc is None ==> f.ncc == match avant.ncc {
                Some(a) => Some(a@),
                None => None,
            }
        }),
{
}

/// Le changement d'un champ est noté si et seulement si sa valeur change, avec ses valeurs
/// d'avant et d'après ; un champ inchangé n'apparaît pas.
pub open spec fn champ_note(
    s: Seq<(Seq<char>, Option<Seq<char>>, Option<Seq<char>>)>,
    champ: Seq<char>,
    avant: Option<Seq<char>>,
    apres: Option<Seq<char>>,
) -> bool {
    &&& avant != apres ==> exists|i: int| 0 <= i < s.len() && s[i] == (champ, avant, apres)
    &&& avant == apres ==> forall|i: int| 0 <= i < s.len() ==> (#[trigger] s[i]).0 != champ
}

/// Le plan d'une modification note exactement les champs dont la valeur change — nom, commune,
/// devise, adresse, NCC —, chacun une fois, avec ses valeurs d'avant et d'après.
pub proof fn loi_changements_exacts(avant: EtablissementVue, f: FusionVue)
    ensures
        ({
            let s = changements_attendus(avant, f);
            &&& s.len() <= 5
            &&& champ_note(s, "nom"@, Some(avant.nom@), Some(f.nom))
            &&& champ_note(s, "commune"@, Some(avant.commune@), Some(f.commune))
            &&& champ_note(s, "devise"@, Some(avant.devise@), Some(f.devise))
            &&& champ_note(s, "adresse"@, vue_option(avant.adresse), f.adresse)
            &&& champ_note(s, "ncc"@, vue_option(avant.ncc), f.ncc)
        }),
{
    reveal_strlit("nom");
    reveal_strlit("commune");
    reveal_strlit("devise");
    reveal_strlit("adresse");
    reveal_strlit("ncc");
    let s1 = si_change(Seq::empty(), "nom"@, Some(avant.nom@), Some(f.nom));
    let s2 = si_change(s1, "commune"@, Some(avant.commune@), Some(f.commune));
    let s3 = si_change(s2, "devise"@, Some(avant.devise@), Some(f.devise));
    let s4 = si_change(s3, "adresse"@, vue_option(avant.adresse), f.adresse);
    let s5 = si_change(s4, "ncc"@, vue_option(avant.ncc), f.ncc);
    assert("nom"@.len() == 3 && "commune"@.len() == 7 && "devise"@.len() == 6);
    assert("adresse"@.len() == 7 && "ncc"@.len() == 3);
    assert("nom"@[1] == 'o' && "ncc"@[1] == 'c');
    assert("commune"@[0] == 'c' && "adresse"@[0] == 'a');
    assert("nom"@ != "commune"@ && "nom"@ != "devise"@ && "nom"@ != "adresse"@ && "nom"@ != "ncc"@);
    assert("commune"@ != "devise"@ && "commune"@ != "adresse"@ && "commune"@ != "ncc"@);
    assert("devise"@ != "adresse"@ && "devise"@ != "ncc"@ && "adresse"@ != "ncc"@);
    assert forall|k: int| 0 <= k < s1.len() implies s5[k] == s1[k] by {}
    assert forall|k: int| 0 <= k < s2.len() implies s5[k] == s2[k] by {}
    assert forall|k: int| 0 <= k < s3.len() implies s5[k] == s3[k] by {}
    assert forall|k: int| 0 <= k < s4.len() implies s5[k] == s4[k] by {}
    if Some(avant.nom@) != Some(f.nom) {
        assert(s5[0] == ("nom"@, Some(avant.nom@), Some(f.nom)));
    }
    if Some(avant.commune@) != Some(f.commune) {
        assert(s5[s1.len() as int] == ("commune"@, Some(avant.commune@), Some(f.commune)));
    }
    if Some(avant.devise@) != Some(f.devise) {
        assert(s5[s2.len() as int] == ("devise"@, Some(avant.devise@), Some(f.devise)));
    }
    if vue_option(avant.adresse) != f.adresse {
        assert(s5[s3.len() as int] == ("adresse"@, vue_option(avant.adresse), f.adresse));
    }
    if vue_option(avant.ncc) != f.ncc {
        assert(s5[s4.len() as int] == ("ncc"@, vue_option(avant.ncc), f.ncc));
    }
}

} // verus!
