//! Le séjour : son statut, les identifiants qu'il dérive, le tarif prévu à l'arrivée, et les
//! décisions du parcours d'arrivée et d'ajout d'accompagnant.
//!
//! Le terminal fournit **un** identifiant, celui du séjour ; l'occupation, la note, sa ligne et la
//! fiche de police en sont **dérivés**. La dérivation est déterministe — le même séjour rejoué
//! demande les mêmes lignes — et sans collision entre familles.

use vstd::prelude::*;

use crate::hebergement::erreurs::ErreurSejour;
use crate::hebergement::occupation::ErreurAttribution;
use crate::hebergement::referentiel::{famille_de_code, FamilleFormule};
use crate::hebergement::tarification::{calcul_attendu, calcul_representable, calculer, Palier};
use crate::hebergement::Issue;
use crate::temps::{minutes_ecoulees, minutes_entre, Horodatage};

verus! {

// =================================================================================================
//  Le statut
// =================================================================================================

/// L'état d'un séjour : en cours ou terminé, et rien d'autre.
#[derive(Debug, Clone, Copy, PartialEq, Eq, Structural)]
pub enum StatutSejour {
    EnCours,
    Clos,
}

impl StatutSejour {
    pub open spec fn code_spec(self) -> Seq<char> {
        match self {
            StatutSejour::EnCours => "en_cours"@,
            StatutSejour::Clos => "clos"@,
        }
    }

    /// Le code stocké en base.
    pub fn code(self) -> (r: &'static str)
        ensures
            r@ == self.code_spec(),
    {
        match self {
            StatutSejour::EnCours => "en_cours",
            StatutSejour::Clos => "clos",
        }
    }

    /// Reconstruit le statut depuis le code lu en base ; `None` sur un code inconnu, sans
    /// paniquer : une ligne écrite par une version ultérieure ne fait pas tomber la lecture.
    pub fn depuis_code(code: &str) -> (r: Option<StatutSejour>)
        ensures
            r == statut_sejour_de_code(code@),
    {
        if crate::texte::egal(code, "en_cours") {
            Some(StatutSejour::EnCours)
        } else if crate::texte::egal(code, "clos") {
            Some(StatutSejour::Clos)
        } else {
            None
        }
    }
}

/// Le statut dont `c` est le code, s'il y en a un.
pub open spec fn statut_sejour_de_code(c: Seq<char>) -> Option<StatutSejour> {
    if c == StatutSejour::EnCours.code_spec() {
        Some(StatutSejour::EnCours)
    } else if c == StatutSejour::Clos.code_spec() {
        Some(StatutSejour::Clos)
    } else {
        None
    }
}

/// Chaque statut se relit depuis son code.
pub proof fn loi_statut_sejour_aller_retour(s: StatutSejour)
    ensures
        statut_sejour_de_code(s.code_spec()) == Some(s),
{
    reveal_strlit("en_cours");
    reveal_strlit("clos");
    assert("en_cours"@.len() == 8);
    assert("clos"@.len() == 4);
}

// =================================================================================================
//  Identifiants dérivés
// =================================================================================================

/// Discriminants de famille — un par table, jamais réutilisé.
pub const DISCRIMINANT_OCCUPATION: u8 = 1;
pub const DISCRIMINANT_NOTE: u8 = 2;
pub const DISCRIMINANT_LIGNE: u8 = 3;
pub const DISCRIMINANT_FICHE: u8 = 4;
pub const DISCRIMINANT_RECONCILIATION: u8 = 5;

/// Le masque qu'une famille et un rang appliquent : le discriminant dans l'octet 13 de
/// l'identifiant, le rang dans les octets 14 et 15 (les 24 bits de poids faible).
pub open spec fn masque(discriminant: u8, rang: u16) -> u128 {
    ((discriminant as u128) << 16u128) | (rang as u128)
}

/// L'identifiant dérivé de `source` pour une famille et un rang.
pub open spec fn derive(source: u128, discriminant: u8, rang: u16) -> u128 {
    source ^ masque(discriminant, rang)
}

/// Dérive un identifiant depuis celui du séjour, un discriminant de famille et un rang.
///
/// Seuls les 24 bits de poids faible changent : la partie haute d'un UUID v7 est son
/// horodatage, et la garder garde l'ordre temporel des identifiants dérivés.
pub fn deriver(source: u128, discriminant: u8, rang: u16) -> (r: u128)
    ensures
        r == derive(source, discriminant, rang),
        r >> 24u128 == source >> 24u128,
{
    let m: u128 = ((discriminant as u128) << 16u128) | (rang as u128);
    let r = source ^ m;
    assert(r >> 24u128 == source >> 24u128) by (bit_vector)
        requires
            r == source ^ m,
            m == ((discriminant as u128) << 16u128) | (rang as u128),
    ;
    r
}

/// Le même masque ne vient que de la même famille et du même rang.
proof fn lemme_masque_injectif(d1: u8, r1: u16, d2: u8, r2: u16)
    ensures
        masque(d1, r1) == masque(d2, r2) ==> d1 == d2 && r1 == r2,
{
    assert(((((d1 as u128) << 16u128) | (r1 as u128)) == (((d2 as u128) << 16u128) | (
    r2 as u128))) ==> d1 == d2 && r1 == r2) by (bit_vector);
}

/// Deux sources distinctes ne partagent aucun dérivé de même famille et de même rang, et une
/// même source ne donne le même dérivé que pour la même famille et le même rang.
pub proof fn loi_derivation_sans_collision(
    a: u128,
    da: u8,
    ra: u16,
    b: u128,
    db: u8,
    rb: u16,
)
    ensures
        (da == db && ra == rb) ==> (derive(a, da, ra) == derive(b, db, rb) <==> a == b),
        a == b ==> (derive(a, da, ra) == derive(b, db, rb) <==> (da == db && ra == rb)),
{
    let ma = masque(da, ra);
    let mb = masque(db, rb);
    assert((a ^ ma == b ^ ma) <==> a == b) by (bit_vector);
    assert((a ^ ma == a ^ mb) <==> ma == mb) by (bit_vector);
    lemme_masque_injectif(da, ra, db, rb);
}

/// L'identifiant de la `rang`-ième occupation d'un séjour.
pub fn identifiant_occupation(sejour_id: u128, rang: u16) -> (r: u128)
    ensures
        r == derive(sejour_id, DISCRIMINANT_OCCUPATION, rang),
{
    deriver(sejour_id, DISCRIMINANT_OCCUPATION, rang)
}

/// L'identifiant de la note d'un séjour.
pub fn identifiant_note(sejour_id: u128) -> (r: u128)
    ensures
        r == derive(sejour_id, DISCRIMINANT_NOTE, 0),
{
    deriver(sejour_id, DISCRIMINANT_NOTE, 0)
}

/// L'identifiant de la `rang`-ième ligne de la note d'un séjour.
pub fn identifiant_ligne(sejour_id: u128, rang: u16) -> (r: u128)
    ensures
        r == derive(sejour_id, DISCRIMINANT_LIGNE, rang),
{
    deriver(sejour_id, DISCRIMINANT_LIGNE, rang)
}

/// L'identifiant de la fiche de police d'un séjour.
pub fn identifiant_fiche(sejour_id: u128) -> (r: u128)
    ensures
        r == derive(sejour_id, DISCRIMINANT_FICHE, 0),
{
    deriver(sejour_id, DISCRIMINANT_FICHE, 0)
}

/// L'identifiant de la ligne de réconciliation d'un accompagnant orphelin.
pub fn identifiant_reconciliation(accompagnant_id: u128) -> (r: u128)
    ensures
        r == derive(accompagnant_id, DISCRIMINANT_RECONCILIATION, 0),
{
    deriver(accompagnant_id, DISCRIMINANT_RECONCILIATION, 0)
}

// =================================================================================================
//  Le tarif prévu à l'arrivée
// =================================================================================================

/// Le refus que le tarif prévu rend pour une formule introuvable ou inexploitable.
pub open spec fn formule_inconnue() -> ErreurSejour {
    ErreurSejour::Attribution(ErreurAttribution::FormuleInconnue)
}

/// Les nuits **entamées** d'une durée : quatre heures à cheval sur minuit font une nuit, et une
/// durée nulle ou négative en compte une.
pub open spec fn nuits_entamees(duree: int) -> int {
    let d = if duree < 1 { 1 } else { duree };
    (d + 1439) / 1440
}

/// Le produit `a × b`, saturé aux bornes des entiers de 64 bits.
pub open spec fn produit_sature(a: int, b: int) -> i64 {
    if a * b > i64::MAX {
        i64::MAX
    } else if a * b < i64::MIN {
        i64::MIN
    } else {
        (a * b) as i64
    }
}

/// Ce que la ligne d'hébergement porte à l'ouverture : `(quantité, prix unitaire, montant)`.
///
/// Un passage compte **une** occurrence du palier retenu, sans bascule (la bascule est un fait
/// du départ) ; une nuitée compte ses nuits entamées ; les autres familles, une occurrence au
/// prix d'appel.
pub open spec fn tarif_prevu_attendu(
    famille: Option<FamilleFormule>,
    prix_mineur: i64,
    prix_heure: Option<i64>,
    paliers: Seq<Palier>,
    duree: int,
) -> Result<(i64, i64, i64), ErreurSejour> {
    match famille {
        None => Err(formule_inconnue()),
        Some(FamilleFormule::Passage) => match calcul_attendu(duree, paliers, prix_heure, None, None) {
            Ok(c) => Ok((1i64, c.montant_du_mineur, c.montant_du_mineur)),
            Err(_) => Err(formule_inconnue()),
        },
        Some(FamilleFormule::Nuitee) => {
            let n = nuits_entamees(duree);
            Ok((n as i64, prix_mineur, produit_sature(prix_mineur as int, n)))
        },
        Some(_) => Ok((1i64, prix_mineur, prix_mineur)),
    }
}

/// Le tarif prévu, famille par famille. Un code de famille illisible est refusé comme formule
/// inconnue. Une demi-journée ou un mois comptent **une** occurrence au prix d'appel. Une nuitée
/// compte ses nuits **entamées** — au moins une, et `q` nuits pour toute durée de plus de
/// `q − 1` jours jusqu'à `q` jours — au prix de la nuit, le montant étant leur produit tant qu'il
/// tient sur 64 bits. Un passage compte une occurrence du montant que le barème décide, sans
/// bascule ; un barème vide est refusé comme formule inconnue.
pub proof fn loi_tarif_prevu(
    famille: Option<FamilleFormule>,
    prix_mineur: i64,
    prix_heure: Option<i64>,
    paliers: Seq<Palier>,
    duree: int,
)
    ensures
        famille is None ==> tarif_prevu_attendu(famille, prix_mineur, prix_heure, paliers, duree)
            == Err::<(i64, i64, i64), ErreurSejour>(
            ErreurSejour::Attribution(ErreurAttribution::FormuleInconnue),
        ),
        (famille == Some(FamilleFormule::DemiJournee) || famille == Some(FamilleFormule::Mensuel))
            ==> tarif_prevu_attendu(famille, prix_mineur, prix_heure, paliers, duree) == Ok::<
            (i64, i64, i64),
            ErreurSejour,
        >((1i64, prix_mineur, prix_mineur)),
        famille == Some(FamilleFormule::Nuitee) && duree <= 20_000_000_000 ==> (tarif_prevu_attendu(
            famille,
            prix_mineur,
            prix_heure,
            paliers,
            duree,
        ) matches Ok((q, prix, montant)) && {
            &&& q >= 1
            &&& prix == prix_mineur
            &&& 1440 * (q - 1) < (if duree < 1 { 1 } else { duree }) <= 1440 * q
            &&& (i64::MIN <= prix_mineur * q <= i64::MAX ==> montant == prix_mineur * q)
        }),
        famille == Some(FamilleFormule::Passage) ==> match calcul_attendu(
            duree,
            paliers,
            prix_heure,
            None,
            None,
        ) {
            Ok(c) => tarif_prevu_attendu(famille, prix_mineur, prix_heure, paliers, duree) == Ok::<
                (i64, i64, i64),
                ErreurSejour,
            >((1i64, c.montant_du_mineur, c.montant_du_mineur)),
            Err(_) => tarif_prevu_attendu(famille, prix_mineur, prix_heure, paliers, duree)
                == Err::<(i64, i64, i64), ErreurSejour>(
                ErreurSejour::Attribution(ErreurAttribution::FormuleInconnue),
            ),
        },
        famille == Some(FamilleFormule::Passage) && paliers.len() == 0 ==> tarif_prevu_attendu(
            famille,
            prix_mineur,
            prix_heure,
            paliers,
            duree,
        ) is Err,
{
    if famille == Some(FamilleFormule::Nuitee) && duree <= 20_000_000_000 {
        let d: int = if duree < 1 { 1 } else { duree };
        let q = (d + 1439) / 1440;
        assert(1440 * (q - 1) < d <= 1440 * q) by (nonlinear_arith)
            requires
                d >= 1,
                q == (d + 1439) / 1440,
        ;
        assert(q >= 1);
        assert(q <= 20_000_000);
    }
}

/// Le tarif **prévu** de la période demandée — ce que la ligne initiale de la note porte.
///
/// Ce n'est pas le montant réel du départ : ici on écrit ce qui est vendu à l'arrivée, sur la
/// période demandée, en réemployant le barème.
pub fn tarif_prevu(
    code_famille: &str,
    prix_mineur: i64,
    prix_heure_supplementaire_mineur: Option<i64>,
    paliers: &[Palier],
    debut: Horodatage,
    fin: Horodatage,
) -> (r: Result<(i64, i64, i64), ErreurSejour>)
    requires
        debut.valide(),
        fin.valide(),
        famille_de_code(code_famille@) == Some(FamilleFormule::Passage) ==> calcul_representable(
            minutes_entre(debut, fin),
            paliers@,
            prix_heure_supplementaire_mineur,
            None,
            None,
        ),
    ensures
        r == tarif_prevu_attendu(
            famille_de_code(code_famille@),
            prix_mineur,
            prix_heure_supplementaire_mineur,
            paliers@,
            minutes_entre(debut, fin),
        ),
{
    let famille = match FamilleFormule::depuis_code(code_famille) {
        Ok(f) => f,
        Err(_) => {
            return Err(ErreurSejour::Attribution(ErreurAttribution::FormuleInconnue));
        },
    };
    let duree = minutes_ecoulees(debut, fin);
    match famille {
        FamilleFormule::Passage => {
            match calculer(duree, paliers, prix_heure_supplementaire_mineur, None, None) {
                Ok(c) => Ok((1i64, c.montant_du_mineur, c.montant_du_mineur)),
                Err(_) => Err(ErreurSejour::Attribution(ErreurAttribution::FormuleInconnue)),
            }
        },
        FamilleFormule::Nuitee => {
            let nuits = nuits_de(duree);
            assert(-20_000_000 * 9_223_372_036_854_775_808 <= (prix_mineur as int) * (nuits as int)
                <= 20_000_000 * 9_223_372_036_854_775_808) by (nonlinear_arith)
                requires
                    1 <= nuits <= 20_000_000,
                    -9_223_372_036_854_775_808 <= prix_mineur <= 9_223_372_036_854_775_807,
            ;
            let produit: i128 = (prix_mineur as i128) * (nuits as i128);
            let montant: i64 = if produit > i64::MAX as i128 {
                i64::MAX
            } else if produit < i64::MIN as i128 {
                i64::MIN
            } else {
                produit as i64
            };
            Ok((nuits, prix_mineur, montant))
        },
        _ => Ok((1i64, prix_mineur, prix_mineur)),
    }
}

/// Les nuits entamées d'une durée en minutes.
fn nuits_de(duree: i64) -> (n: i64)
    requires
        -20_000_000_000 <= duree <= 20_000_000_000,
    ensures
        n == nuits_entamees(duree as int),
        1 <= n <= 20_000_000,
{
    let d: i64 = if duree < 1 { 1 } else { duree };
    (d + 1439) / 1440
}

// =================================================================================================
//  L'arrivée : ce que le parcours décide entre ses écritures
// =================================================================================================

/// Ce que l'arrivée écrit après l'attribution : les identifiants dérivés du séjour, et l'état de
/// la fiche de police.
#[derive(Debug, Clone, Copy, PartialEq, Eq, Structural)]
pub struct PlanOuverture {
    pub occupation_id: u128,
    pub note_id: u128,
    pub ligne_id: u128,
    pub fiche_id: u128,
    /// Une fiche sans client rattaché est « identité à compléter » : ni fabriquée, ni omise.
    pub fiche_complete: bool,
}

/// Le plan des écritures d'une arrivée.
pub open spec fn plan_ouverture(sejour_id: u128, client_id: Option<u128>) -> PlanOuverture {
    PlanOuverture {
        occupation_id: derive(sejour_id, DISCRIMINANT_OCCUPATION, 0),
        note_id: derive(sejour_id, DISCRIMINANT_NOTE, 0),
        ligne_id: derive(sejour_id, DISCRIMINANT_LIGNE, 0),
        fiche_id: derive(sejour_id, DISCRIMINANT_FICHE, 0),
        fiche_complete: client_id is Some,
    }
}

/// Le plan des écritures d'une arrivée, tiré du seul identifiant fourni par le terminal.
pub fn planifier_ouverture(sejour_id: u128, client_id: Option<u128>) -> (r: PlanOuverture)
    ensures
        r == plan_ouverture(sejour_id, client_id),
        r.occupation_id == derive(sejour_id, DISCRIMINANT_OCCUPATION, 0),
        r.note_id == derive(sejour_id, DISCRIMINANT_NOTE, 0),
        r.ligne_id == derive(sejour_id, DISCRIMINANT_LIGNE, 0),
        r.fiche_id == derive(sejour_id, DISCRIMINANT_FICHE, 0),
        r.fiche_complete == client_id is Some,
{
    PlanOuverture {
        occupation_id: identifiant_occupation(sejour_id, 0),
        note_id: identifiant_note(sejour_id),
        ligne_id: identifiant_ligne(sejour_id, 0),
        fiche_id: identifiant_fiche(sejour_id),
        fiche_complete: client_id.is_some(),
    }
}

/// Ni l'occupation ni le séjour n'ont été créés par cette arrivée.
pub open spec fn rejeu_complet(sejour_cree: bool, issue_occupation: Issue) -> bool {
    !sejour_cree && issue_occupation == Issue::DejaPresente
}

/// L'arrivée est-elle un **rejeu complet** — ni l'occupation ni le séjour n'ont été créés ? On
/// rend alors l'état en base, sans rien réécrire ni émettre.
pub fn est_rejeu_complet(sejour_cree: bool, issue_occupation: Issue) -> (r: bool)
    ensures
        r == (!sejour_cree && issue_occupation == Issue::DejaPresente),
        r == rejeu_complet(sejour_cree, issue_occupation),
{
    !sejour_cree && issue_occupation == Issue::DejaPresente
}

/// L'issue d'une arrivée rendue à l'appelant.
pub open spec fn issue_ouverture_spec(sejour_cree: bool, issue_occupation: Issue) -> Issue {
    if rejeu_complet(sejour_cree, issue_occupation) {
        Issue::DejaPresente
    } else {
        Issue::Creee
    }
}

/// L'issue d'une arrivée : « déjà présente » pour un rejeu complet, « créée » sinon — une
/// arrivée dont une partie seulement existait est menée à son terme.
pub fn issue_ouverture(sejour_cree: bool, issue_occupation: Issue) -> (r: Issue)
    ensures
        r == issue_ouverture_spec(sejour_cree, issue_occupation),
{
    if est_rejeu_complet(sejour_cree, issue_occupation) {
        Issue::DejaPresente
    } else {
        Issue::Creee
    }
}

/// Rejouer une arrivée est inoffensif. Le plan ne dépend que de l'identifiant du séjour — deux
/// plans pour le même séjour demandent les mêmes lignes, quel que soit le client — et la fiche
/// n'est complète que si un client est rattaché. Quand le second passage trouve l'occupation et
/// le séjour déjà en base, c'est un rejeu complet : il rend « déjà présente », sans rien écrire ni
/// émettre ; dès que l'une des deux lignes vient d'être créée, l'arrivée est menée à son terme.
pub proof fn loi_rejeu_ouverture(sejour_id: u128, client_id: Option<u128>, autre_client: Option<u128>)
    ensures
        plan_ouverture(sejour_id, client_id).occupation_id == plan_ouverture(
            sejour_id,
            autre_client,
        ).occupation_id,
        plan_ouverture(sejour_id, client_id).note_id == plan_ouverture(
            sejour_id,
            autre_client,
        ).note_id,
        plan_ouverture(sejour_id, client_id).ligne_id == plan_ouverture(
            sejour_id,
            autre_client,
        ).ligne_id,
        plan_ouverture(sejour_id, client_id).fiche_id == plan_ouverture(
            sejour_id,
            autre_client,
        ).fiche_id,
        (client_id is Some == autre_client is Some) ==> plan_ouverture(sejour_id, client_id)
            == plan_ouverture(sejour_id, autre_client),
        rejeu_complet(false, Issue::DejaPresente),
        issue_ouverture_spec(false, Issue::DejaPresente) == Issue::DejaPresente,
        forall|i: Issue| #![auto] !rejeu_complet(true, i) && issue_ouverture_spec(true, i) == Issue::Creee,
        !rejeu_complet(false, Issue::Creee),
        issue_ouverture_spec(false, Issue::Creee) == Issue::Creee,
{
}

/// La garde de tout parcours : l'établissement existe, et l'hébergement y est actif.
pub fn garder(etablissement_connu: bool, hebergement_actif: bool) -> (r: Result<(), ErreurSejour>)
    ensures
        !etablissement_connu ==> r == Err::<(), ErreurSejour>(ErreurSejour::EtablissementInconnu),
        etablissement_connu && !hebergement_actif ==> r == Err::<(), ErreurSejour>(
            ErreurSejour::ServiceInactif,
        ),
        etablissement_connu && hebergement_actif ==> r is Ok,
{
    if !etablissement_connu {
        Err(ErreurSejour::EtablissementInconnu)
    } else if !hebergement_actif {
        Err(ErreurSejour::ServiceInactif)
    } else {
        Ok(())
    }
}

// =================================================================================================
//  Accompagnants, et le cas orphelin
// =================================================================================================

/// Un accompagnant tel qu'il est rendu : **sans numéro de pièce**, seulement le fait qu'une pièce
/// est enregistrée.
#[derive(Debug, Clone)]
pub struct Accompagnant {
    pub id: u128,
    pub sejour_id: u128,
    pub nom: String,
    pub prenoms: Option<String>,
    pub piece_enregistree: bool,
    pub retire_le: Option<Horodatage>,
    pub cree_le: Horodatage,
}

/// Ce qu'un ajout d'accompagnant produit.
#[derive(Debug, Clone)]
pub enum IssueAccompagnant {
    /// Ajouté à un séjour ouvert.
    Ajoute(Accompagnant),
    /// Rejeu du même identifiant, sans second événement.
    Rejeu(Accompagnant),
    /// Le séjour est clos : l'ajout part en file de réconciliation, ni accepté ni rejeté.
    Orphelin { reconciliation_id: u128 },
}

/// Ce que l'ajout fait, selon le statut du séjour.
#[derive(Debug, Clone, Copy, PartialEq, Eq, Structural)]
pub enum DecisionAjout {
    /// Inscrire l'écriture orpheline sous cet identifiant ; le séjour n'est pas touché.
    Reconcilier { reconciliation_id: u128 },
    /// Insérer l'accompagnant.
    Inserer,
}

/// Un ajout sur un séjour **clos** part en réconciliation ; sur un séjour en cours, il s'insère.
pub fn decider_ajout(statut: StatutSejour, accompagnant_id: u128) -> (r: DecisionAjout)
    ensures
        statut == StatutSejour::Clos ==> r == (DecisionAjout::Reconcilier {
            reconciliation_id: derive(accompagnant_id, DISCRIMINANT_RECONCILIATION, 0),
        }),
        statut == StatutSejour::EnCours ==> r == DecisionAjout::Inserer,
{
    match statut {
        StatutSejour::Clos => DecisionAjout::Reconcilier {
            reconciliation_id: identifiant_reconciliation(accompagnant_id),
        },
        StatutSejour::EnCours => DecisionAjout::Inserer,
    }
}

/// L'issue d'une insertion d'accompagnant : créé, ou rejeu du même identifiant.
pub fn issue_ajout(cree: bool, accompagnant: Accompagnant) -> (r: IssueAccompagnant)
    ensures
        cree ==> r == IssueAccompagnant::Ajoute(accompagnant),
        !cree ==> r == IssueAccompagnant::Rejeu(accompagnant),
{
    if cree {
        IssueAccompagnant::Ajoute(accompagnant)
    } else {
        IssueAccompagnant::Rejeu(accompagnant)
    }
}

/// Le nombre de personnes d'un séjour : le titulaire, plus les accompagnants non retirés.
///
/// Un compte qui ne tient pas dans 32 bits est plafonné ; le compte `i32::MAX` exactement
/// déborderait, et n'est pas accepté.
pub fn nombre_personnes(accompagnants: i64) -> (r: i32)
    requires
        accompagnants != i32::MAX,
    ensures
        i32::MIN <= accompagnants <= i32::MAX ==> r == 1 + accompagnants,
        !(i32::MIN <= accompagnants <= i32::MAX) ==> r == i32::MAX,
{
    if i32::MIN as i64 <= accompagnants && accompagnants <= i32::MAX as i64 {
        1 + accompagnants as i32
    } else {
        1 + (i32::MAX - 1)
    }
}

/// Le statut lu en base : un code inconnu vaut « en cours », le classement prudent qui n'affirme
/// pas qu'un séjour est terminé.
pub fn statut_lu(code: &str) -> (r: StatutSejour)
    ensures
        r == match statut_sejour_de_code(code@) {
            Some(s) => s,
            None => StatutSejour::EnCours,
        },
{
    match StatutSejour::depuis_code(code) {
        Some(s) => s,
        None => StatutSejour::EnCours,
    }
}

// =================================================================================================
//  La note : son total est la somme de ses lignes
// =================================================================================================

/// L'addition saturée aux bornes des entiers de 64 bits.
pub open spec fn somme_saturee(a: int, b: int) -> i64 {
    if a + b > i64::MAX {
        i64::MAX
    } else if a + b < i64::MIN {
        i64::MIN
    } else {
        (a + b) as i64
    }
}

/// Le total d'une note : les montants de ses lignes additionnés dans l'ordre, chaque addition
/// saturée — un dépassement ne rend jamais un total négatif.
pub open spec fn total_saturant(montants: Seq<i64>) -> i64
    decreases montants.len(),
{
    if montants.len() == 0 {
        0
    } else {
        somme_saturee(total_saturant(montants.drop_last()) as int, montants.last() as int)
    }
}

/// Un dépassement ne rend jamais négatif le total de lignes qui ne le sont pas : la saturation
/// plafonne au lieu de boucler.
pub proof fn loi_total_jamais_negatif(montants: Seq<i64>)
    requires
        forall|i: int| 0 <= i < montants.len() ==> montants[i] >= 0,
    ensures
        total_saturant(montants) >= 0,
    decreases montants.len(),
{
    if montants.len() > 0 {
        let debut = montants.drop_last();
        assert forall|i: int| 0 <= i < debut.len() implies debut[i] >= 0 by {
            assert(debut[i] == montants[i]);
        }
        loi_total_jamais_negatif(debut);
        assert(montants.last() == montants[montants.len() - 1]);
    }
}

/// La somme exacte des montants.
pub open spec fn somme(montants: Seq<i64>) -> int
    decreases montants.len(),
{
    if montants.len() == 0 {
        0
    } else {
        somme(montants.drop_last()) + montants.last()
    }
}

/// Le total d'une note **est la somme de ses lignes** dès qu'aucun total partiel ne sort des
/// entiers de 64 bits : la saturation n'intervient qu'au-delà.
pub proof fn loi_total_est_la_somme(montants: Seq<i64>)
    requires
        forall|k: int|
            0 <= k <= montants.len() ==> i64::MIN <= #[trigger] somme(montants.take(k)) <= i64::MAX,
    ensures
        total_saturant(montants) == somme(montants),
    decreases montants.len(),
{
    if montants.len() > 0 {
        let debut = montants.drop_last();
        assert forall|k: int| 0 <= k <= debut.len() implies i64::MIN <= #[trigger] somme(
            debut.take(k),
        ) <= i64::MAX by {
            assert(debut.take(k) =~= montants.take(k));
        }
        loi_total_est_la_somme(debut);
        assert(montants.take(montants.len() as int) =~= montants);
    }
}

/// Le total d'une note, calculé à la lecture depuis ses lignes — jamais lu dans une colonne.
pub fn total_note(montants: &[i64]) -> (r: i64)
    ensures
        r == total_saturant(montants@),
{
    let mut total: i64 = 0;
    let mut i: usize = 0;
    while i < montants.len()
        invariant
            0 <= i <= montants@.len(),
            total == total_saturant(montants@.subrange(0, i as int)),
        decreases montants@.len() - i,
    {
        let somme: i128 = total as i128 + montants[i] as i128;
        total = if somme > i64::MAX as i128 {
            i64::MAX
        } else if somme < i64::MIN as i128 {
            i64::MIN
        } else {
            somme as i64
        };
        assert(montants@.subrange(0, i + 1).drop_last() =~= montants@.subrange(0, i as int));
        i = i + 1;
    }
    assert(montants@.subrange(0, montants@.len() as int) =~= montants@);
    total
}

// =================================================================================================
//  La liste des séjours, habillée du nom de leurs clients
// =================================================================================================

/// Un séjour tel qu'il est en base.
#[derive(Debug, Clone, Copy, PartialEq, Eq, Structural)]
pub struct Sejour {
    pub id: u128,
    pub etablissement_id: u128,
    /// Absent pour un passage : la pièce d'identité vient après la clé.
    pub client_id: Option<u128>,
    pub statut: StatutSejour,
    /// Horodatage d'autorité serveur.
    pub ouvert_le: Horodatage,
    pub clos_le: Option<Horodatage>,
}

/// Ce que l'annuaire des clients rend d'un client : son nom, **jamais sa pièce**.
#[derive(Debug, Clone)]
pub struct ResumeClient {
    pub id: u128,
    pub nom: String,
    pub prenoms: Option<String>,
    pub telephone: Option<String>,
}

/// Ce que la vue lit de la note d'un séjour.
#[derive(Debug, Clone)]
pub struct TotalNote {
    pub total_mineur: i64,
    pub devise: String,
}

/// Un séjour lu pour la liste, avec sa note et son nombre de personnes.
#[derive(Debug, Clone)]
pub struct LigneSejour {
    pub sejour: Sejour,
    pub unite_id: Option<u128>,
    pub fin_prevue: Option<Horodatage>,
    pub note: Option<TotalNote>,
    pub nombre_personnes: i32,
}

/// Un séjour dans la liste — avec le nom de son client, résolu par l'annuaire.
#[derive(Debug, Clone)]
pub struct SejourVue {
    pub sejour: Sejour,
    /// `None` quand le séjour n'a pas de client rattaché, ou que sa fiche a été purgée.
    pub client_nom: Option<String>,
    pub client_telephone: Option<String>,
    pub nombre_personnes: i32,
    pub unite_id: Option<u128>,
    pub fin_prevue: Option<Horodatage>,
    /// Entier d'unité mineure — la somme des lignes ; zéro sans note.
    pub total_mineur: i64,
    /// Vide sans note.
    pub devise: String,
}

/// Les clients à résoudre, dans l'ordre des séjours : ceux qui en ont un.
pub open spec fn ids_clients(lignes: Seq<LigneSejour>) -> Seq<u128>
    decreases lignes.len(),
{
    if lignes.len() == 0 {
        Seq::empty()
    } else {
        let avant = ids_clients(lignes.drop_last());
        match lignes.last().sejour.client_id {
            Some(id) => avant.push(id),
            None => avant,
        }
    }
}

/// Les identifiants de clients à demander **en un seul lot** à l'annuaire.
pub fn clients_a_resoudre(lignes: &[LigneSejour]) -> (r: Vec<u128>)
    ensures
        r@ == ids_clients(lignes@),
{
    let mut ids: Vec<u128> = Vec::new();
    let mut i: usize = 0;
    while i < lignes.len()
        invariant
            0 <= i <= lignes@.len(),
            ids@ == ids_clients(lignes@.subrange(0, i as int)),
        decreases lignes@.len() - i,
    {
        assert(lignes@.subrange(0, i + 1).drop_last() =~= lignes@.subrange(0, i as int));
        match lignes[i].sejour.client_id {
            Some(id) => ids.push(id),
            None => {},
        }
        i = i + 1;
    }
    assert(lignes@.subrange(0, lignes@.len() as int) =~= lignes@);
    ids
}

/// `k` est le premier résumé de l'annuaire qui porte l'identifiant `id`.
pub open spec fn premier_resume(resumes: Seq<ResumeClient>, id: u128, k: int) -> bool {
    &&& 0 <= k < resumes.len()
    &&& resumes[k].id == id
    &&& forall|j: int| 0 <= j < k ==> resumes[j].id != id
}

/// Le nom affiché d'un client : le nom, suivi des prénoms quand il y en a.
pub open spec fn nom_affiche(r: ResumeClient) -> Seq<char> {
    match r.prenoms {
        Some(p) => r.nom@ + seq![' '] + p@,
        None => r.nom@,
    }
}

/// La vue `v` est celle du séjour `l`, habillé depuis les résumés de l'annuaire. Un client absent
/// de la réponse — purgé, ou jamais rattaché — se présente sans nom.
pub open spec fn vue_conforme(v: SejourVue, l: LigneSejour, resumes: Seq<ResumeClient>) -> bool {
    &&& v.sejour == l.sejour
    &&& v.nombre_personnes == l.nombre_personnes
    &&& v.unite_id == l.unite_id
    &&& v.fin_prevue == l.fin_prevue
    &&& v.total_mineur == match l.note {
        Some(n) => n.total_mineur,
        None => 0,
    }
    &&& v.devise@ == match l.note {
        Some(n) => n.devise@,
        None => Seq::<char>::empty(),
    }
    &&& match l.sejour.client_id {
        Some(id) => if exists|k: int| premier_resume(resumes, id, k) {
            let k = choose|k: int| premier_resume(resumes, id, k);
            &&& v.client_nom is Some
            &&& v.client_nom->0@ == nom_affiche(resumes[k])
            &&& v.client_telephone == resumes[k].telephone
        } else {
            v.client_nom is None && v.client_telephone is None
        },
        None => v.client_nom is None && v.client_telephone is None,
    }
}

/// Le nom affiché d'un client.
pub fn nom_client(resume: &ResumeClient) -> (r: String)
    ensures
        r@ == nom_affiche(*resume),
{
    let mut nom = String::new();
    crate::texte::ajouter_texte(&mut nom, resume.nom.as_str());
    match &resume.prenoms {
        Some(p) => {
            crate::texte::pousser(&mut nom, ' ');
            crate::texte::ajouter_texte(&mut nom, p.as_str());
            assert(nom@ =~= resume.nom@ + seq![' '] + p@);
        },
        None => {
            assert(nom@ =~= resume.nom@);
        },
    }
    nom
}

/// Le premier résumé qui porte l'identifiant `id`, s'il y en a un.
fn chercher_resume(resumes: &[ResumeClient], id: u128) -> (r: Option<usize>)
    ensures
        match r {
            Some(k) => premier_resume(resumes@, id, k as int),
            None => forall|j: int| 0 <= j < resumes@.len() ==> resumes@[j].id != id,
        },
{
    let mut i: usize = 0;
    while i < resumes.len()
        invariant
            0 <= i <= resumes@.len(),
            forall|j: int| 0 <= j < i ==> resumes@[j].id != id,
        decreases resumes@.len() - i,
    {
        if resumes[i].id == id {
            return Some(i);
        }
        i = i + 1;
    }
    None
}

proof fn lemme_premier_resume_unique(resumes: Seq<ResumeClient>, id: u128, k: int, k2: int)
    requires
        premier_resume(resumes, id, k),
        premier_resume(resumes, id, k2),
    ensures
        k == k2,
{
    if k < k2 {
        assert(resumes[k].id != id);
    }
    if k2 < k {
        assert(resumes[k2].id != id);
    }
}

/// Habille un séjour de son client, de sa note et de son nombre de personnes.
pub fn habiller(ligne: &LigneSejour, resumes: &[ResumeClient]) -> (v: SejourVue)
    ensures
        vue_conforme(v, *ligne, resumes@),
{
    let resume = match ligne.sejour.client_id {
        Some(id) => chercher_resume(resumes, id),
        None => None,
    };
    let (client_nom, client_telephone) = match resume {
        Some(k) => {
            let telephone = match &resumes[k].telephone {
                Some(t) => Some(t.clone()),
                None => None,
            };
            (Some(nom_client(&resumes[k])), telephone)
        },
        None => (None, None),
    };
    let (total_mineur, devise) = match &ligne.note {
        Some(n) => (n.total_mineur, n.devise.clone()),
        None => (0i64, String::new()),
    };
    let v = SejourVue {
        sejour: ligne.sejour,
        client_nom,
        client_telephone,
        nombre_personnes: ligne.nombre_personnes,
        unite_id: ligne.unite_id,
        fin_prevue: ligne.fin_prevue,
        total_mineur,
        devise,
    };
    proof {
        match ligne.sejour.client_id {
            Some(id) => {
                match resume {
                    Some(k) => {
                        let k2 = choose|k2: int| premier_resume(resumes@, id, k2);
                        lemme_premier_resume_unique(resumes@, id, k as int, k2);
                    },
                    None => {
                        assert(!exists|k: int| premier_resume(resumes@, id, k));
                    },
                }
            },
            None => {},
        }
    }
    v
}

/// Habille chaque séjour de la liste, dans l'ordre, depuis un seul lot de résumés.
pub fn habiller_de_noms(lignes: &[LigneSejour], resumes: &[ResumeClient]) -> (r: Vec<SejourVue>)
    ensures
        r@.len() == lignes@.len(),
        forall|i: int| 0 <= i < lignes@.len() ==> vue_conforme(#[trigger] r@[i], lignes@[i], resumes@),
{
    let mut vues: Vec<SejourVue> = Vec::new();
    let mut i: usize = 0;
    while i < lignes.len()
        invariant
            0 <= i <= lignes@.len(),
            vues@.len() == i,
            forall|j: int| 0 <= j < i ==> vue_conforme(#[trigger] vues@[j], lignes@[j], resumes@),
        decreases lignes@.len() - i,
    {
        let v = habiller(&lignes[i], resumes);
        vues.push(v);
        i = i + 1;
    }
    vues
}

} // verus!
