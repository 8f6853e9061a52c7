//! Les points de vente d'un établissement et leurs tables. Un point de vente sans table est un
//! comptoir — la forme normale d'un maquis, pas un cas dégradé.

use vstd::prelude::*;

use crate::temps::Horodatage;
use crate::texte::{egal, rogne, rogner, rogner_borne};

verus! {

/// Longueur maximale du nom d'un point de vente : il tient sur un ticket.
pub const NOM_MAX: usize = 120;

/// Une table, telle qu'elle est rendue.
#[derive(Debug, Clone)]
pub struct TableVue {
    pub id: u128,
    pub libelle: String,
}

/// Un point de vente, avec ses tables actives.
#[derive(Debug, Clone)]
pub struct PointDeVenteVue {
    pub id: u128,
    pub etablissement_id: u128,
    pub module_code: String,
    pub nom: String,
    pub caisse_id: Option<u128>,
    pub actif: bool,
    /// Vide : un comptoir.
    pub tables: Vec<TableVue>,
    pub cree_le: Horodatage,
}

/// Demande de modification — tout champ absent est laissé tel quel.
#[derive(Debug, Clone)]
pub struct ModifierPointDeVente {
    pub nom: Option<String>,
    pub caisse_id: Option<u128>,
    pub actif: Option<bool>,
}

/// Une table demandée dans un remplacement du plan de salle.
#[derive(Debug, Clone)]
pub struct TableDemandee {
    pub id: u128,
    pub libelle: String,
}

/// Une table posée par un remplacement : l'identifiant que la base a retenu, et son libellé.
#[derive(Debug, Clone)]
pub struct TablePosee {
    pub id: u128,
    pub libelle: String,
}

/// Le refus du domaine des points de vente.
#[derive(Debug)]
pub enum ErreurPointDeVente {
    NomInvalide,
    LibelleInvalide,
    ModuleNonActif(String),
    NomDejaPris(String),
    EtablissementInconnu,
    Inconnu,
    /// Une panne d'infrastructure — base, grand livre, contexte de tenant.
    Interne(String),
}

impl ErreurPointDeVente {
    pub open spec fn code_spec(&self) -> Seq<char> {
        match self {
            ErreurPointDeVente::NomInvalide => "nom_invalide"@,
            ErreurPointDeVente::LibelleInvalide => "libelle_invalide"@,
            ErreurPointDeVente::ModuleNonActif(_) => "module_non_actif"@,
            ErreurPointDeVente::NomDejaPris(_) => "nom_deja_pris"@,
            ErreurPointDeVente::EtablissementInconnu => "etablissement_inconnu"@,
            ErreurPointDeVente::Inconnu => "point_de_vente_inconnu"@,
            ErreurPointDeVente::Interne(_) => "erreur_interne"@,
        }
    }

    /// Le code stable exposé par le contrat HTTP.
    pub fn code(&self) -> (r: &'static str)
        ensures
            r@ == self.code_spec(),
    {
        match self {
            ErreurPointDeVente::NomInvalide => "nom_invalide",
            ErreurPointDeVente::LibelleInvalide => "libelle_invalide",
            ErreurPointDeVente::ModuleNonActif(_) => "module_non_actif",
            ErreurPointDeVente::NomDejaPris(_) => "nom_deja_pris",
            ErreurPointDeVente::EtablissementInconnu => "etablissement_inconnu",
            ErreurPointDeVente::Inconnu => "point_de_vente_inconnu",
            ErreurPointDeVente::Interne(_) => "erreur_interne",
        }
    }

    /// La valeur refusée : le module, ou le nom déjà pris.
    pub fn valeur(&self) -> (r: Option<String>)
        ensures
            match self {
                ErreurPointDeVente::ModuleNonActif(v) => r == Some(*v),
                ErreurPointDeVente::NomDejaPris(v) => r == Some(*v),
                _ => r is None,
            },
    {
        match self {
            ErreurPointDeVente::ModuleNonActif(v) => Some(v.clone()),
            ErreurPointDeVente::NomDejaPris(v) => Some(v.clone()),
            _ => None,
        }
    }
}

/// Nettoie le nom d'un point de vente : sans ses espaces de bord, de 1 à `NOM_MAX` caractères.
pub fn nettoyer_nom(nom: &str) -> (r: Result<String, ErreurPointDeVente>)
    ensures
        (0 < rogne(nom@).len() <= NOM_MAX) ==> (r matches Ok(t) && t@ == rogne(nom@)),
        !(0 < rogne(nom@).len() <= NOM_MAX) ==> (r matches Err(ErreurPointDeVente::NomInvalide)),
{
    match rogner_borne(nom, NOM_MAX) {
        Some(t) => Ok(t),
        None => Err(ErreurPointDeVente::NomInvalide),
    }
}

/// Le service visé est-il actif ? Rend sa ligne ; sinon le refus nomme le module.
pub fn service_du_point_de_vente(module_code: &str, module_id: Option<u128>) -> (r: Result<
    u128,
    ErreurPointDeVente,
>)
    ensures
        match module_id {
            Some(id) => r == Ok::<u128, ErreurPointDeVente>(id),
            None => r matches Err(ErreurPointDeVente::ModuleNonActif(v)) && v@ == module_code@,
        },
{
    match module_id {
        Some(id) => Ok(id),
        None => Err(ErreurPointDeVente::ModuleNonActif(module_code.to_owned())),
    }
}

// =================================================================================================
//  La modification
// =================================================================================================

/// Les valeurs finales d'une modification de point de vente.
#[derive(Debug, Clone)]
pub struct ModificationPointDeVente {
    pub nom: String,
    pub caisse_id: Option<u128>,
    pub actif: bool,
}

/// Fusionne une modification avec le point de vente d'avant. Rend `None` quand rien ne change :
/// ni écriture, ni événement.
pub fn planifier_modification(avant: &PointDeVenteVue, demande: &ModifierPointDeVente) -> (r:
    Result<Option<ModificationPointDeVente>, ErreurPointDeVente>)
    ensures
        ({
            let nom = rogne(
                match demande.nom {
                    Some(n) => n@,
                    None => avant.nom@,
                },
            );
            let caisse = match demande.caisse_id {
                Some(c) => Some(c),
                None => avant.caisse_id,
            };
            let actif = match demande.actif {
                Some(a) => a,
                None => avant.actif,
            };
            if !(0 < nom.len() <= NOM_MAX) {
                r matches Err(ErreurPointDeVente::NomInvalide)
            } else if nom == avant.nom@ && caisse == avant.caisse_id && actif == avant.actif {
                r matches Ok(None)
            } else {
                r matches Ok(Some(m)) && m.nom@ == nom && m.caisse_id == caisse && m.actif == actif
            }
        }),
{
    let brut = match &demande.nom {
        Some(n) => n.as_str(),
        None => avant.nom.as_str(),
    };
    let nom = match nettoyer_nom(brut) {
        Ok(n) => n,
        Err(e) => {
            return Err(e);
        },
    };
    let caisse_id = match demande.caisse_id {
        Some(c) => Some(c),
        None => avant.caisse_id,
    };
    let actif = match demande.actif {
        Some(a) => a,
        None => avant.actif,
    };
    if egal(nom.as_str(), avant.nom.as_str()) && caisse_id == avant.caisse_id && actif
        == avant.actif {
        return Ok(None);
    }
    Ok(Some(ModificationPointDeVente { nom, caisse_id, actif }))
}

// =================================================================================================
//  Le remplacement des tables
// =================================================================================================

/// Chaque table demandée a-t-elle un libellé non vide ? Sinon, le remplacement est refusé avant
/// toute écriture.
pub fn verifier_libelles(tables: &[TableDemandee]) -> (r: Result<(), ErreurPointDeVente>)
    ensures
        (forall|i: int| 0 <= i < tables@.len() ==> rogne(#[trigger] tables@[i].libelle@).len() > 0)
            ==> r is Ok,
        !(forall|i: int| 0 <= i < tables@.len() ==> rogne(#[trigger] tables@[i].libelle@).len()
            > 0) ==> r matches Err(ErreurPointDeVente::LibelleInvalide),
{
    let mut i: usize = 0;
    while i < tables.len()
        invariant
            0 <= i <= tables@.len(),
            forall|j: int| 0 <= j < i ==> rogne(#[trigger] tables@[j].libelle@).len() > 0,
        decreases tables@.len() - i,
    {
        if crate::texte::est_blanc(tables[i].libelle.as_str()) {
            return Err(ErreurPointDeVente::LibelleInvalide);
        }
        i = i + 1;
    }
    Ok(())
}

/// Le libellé d'une table, tel qu'il est posé : sans ses espaces de bord.
pub fn libelle_pose(table: &TableDemandee) -> (r: String)
    ensures
        r@ == rogne(table.libelle@),
{
    rogner(table.libelle.as_str()).to_owned()
}

/// Les éléments de `xs` qui ne figurent pas dans `exclus`, dans l'ordre.
pub open spec fn hors_de(xs: Seq<u128>, exclus: Seq<u128>) -> Seq<u128>
    decreases xs.len(),
{
    if xs.len() == 0 {
        Seq::empty()
    } else {
        let debut = hors_de(xs.drop_last(), exclus);
        if exclus.contains(xs.last()) {
            debut
        } else {
            debut.push(xs.last())
        }
    }
}

/// Les identifiants des tables posées.
pub open spec fn ids_posees(posees: Seq<TablePosee>) -> Seq<u128> {
    posees.map_values(|t: TablePosee| t.id)
}

/// Les identifiants des tables d'avant.
pub open spec fn ids_tables(tables: Seq<TableVue>) -> Seq<u128> {
    tables.map_values(|t: TableVue| t.id)
}

/// Les tables posées qui n'existaient pas avant, dans l'ordre.
pub open spec fn nouvelles(posees: Seq<TablePosee>, avant: Seq<u128>) -> Seq<TablePosee>
    decreases posees.len(),
{
    if posees.len() == 0 {
        Seq::empty()
    } else {
        let debut = nouvelles(posees.drop_last(), avant);
        if avant.contains(posees.last().id) {
            debut
        } else {
            debut.push(posees.last())
        }
    }
}

fn contient(xs: &[u128], x: u128) -> (r: bool)
    ensures
        r == xs@.contains(x),
{
    let mut i: usize = 0;
    while i < xs.len()
        invariant
            0 <= i <= xs@.len(),
            forall|j: int| 0 <= j < i ==> xs@[j] != x,
        decreases xs@.len() - i,
    {
        if xs[i] == x {
            assert(xs@[i as int] == x);
            return true;
        }
        i = i + 1;
    }
    false
}

fn identifiants(posees: &[TablePosee]) -> (r: Vec<u128>)
    ensures
        r@ == ids_posees(posees@),
{
    let mut ids: Vec<u128> = Vec::new();
    let mut i: usize = 0;
    while i < posees.len()
        invariant
            0 <= i <= posees@.len(),
            ids@ == ids_posees(posees@.subrange(0, i as int)),
        decreases posees@.len() - i,
    {
        ids.push(posees[i].id);
        assert(ids_posees(posees@.subrange(0, i + 1)) =~= ids_posees(
            posees@.subrange(0, i as int),
        ).push(posees@[i as int].id));
        i = i + 1;
    }
    assert(posees@.subrange(0, posees@.len() as int) =~= posees@);
    ids
}

fn identifiants_tables(tables: &[TableVue]) -> (r: Vec<u128>)
    ensures
        r@ == ids_tables(tables@),
{
    let mut ids: Vec<u128> = Vec::new();
    let mut i: usize = 0;
    while i < tables.len()
        invariant
            0 <= i <= tables@.len(),
            ids@ == ids_tables(tables@.subrange(0, i as int)),
        decreases tables@.len() - i,
    {
        ids.push(tables[i].id);
        assert(ids_tables(tables@.subrange(0, i + 1)) =~= ids_tables(
            tables@.subrange(0, i as int),
        ).push(tables@[i as int].id));
        i = i + 1;
    }
    assert(tables@.subrange(0, tables@.len() as int) =~= tables@);
    ids
}

/// Les tables **vraiment** désactivées : désactivées, et pas reposées dans le même appel. Une
/// table désactivée puis reposée n'a pas changé d'état.
pub fn vraiment_desactivees(desactivees: &[u128], posees: &[TablePosee]) -> (r: Vec<u128>)
    ensures
        r@ == hors_de(desactivees@, ids_posees(posees@)),
{
    let reposees = identifiants(posees);
    let mut r: Vec<u128> = Vec::new();
    let mut i: usize = 0;
    while i < desactivees.len()
        invariant
            0 <= i <= desactivees@.len(),
            reposees@ == ids_posees(posees@),
            r@ == hors_de(desactivees@.subrange(0, i as int), reposees@),
        decreases desactivees@.len() - i,
    {
        assert(desactivees@.subrange(0, i + 1).drop_last() =~= desactivees@.subrange(0, i as int));
        if !contient(reposees.as_slice(), desactivees[i]) {
            r.push(desactivees[i]);
        }
        i = i + 1;
    }
    assert(desactivees@.subrange(0, desactivees@.len() as int) =~= desactivees@);
    r
}

/// Les tables **vraiment** créées : posées, et absentes du plan d'avant.
pub fn vraiment_creees(posees: &[TablePosee], avant: &[TableVue]) -> (r: Vec<TablePosee>)
    ensures
        r@ == nouvelles(posees@, ids_tables(avant@)),
{
    let ids_avant = identifiants_tables(avant);
    let mut r: Vec<TablePosee> = Vec::new();
    let mut i: usize = 0;
    while i < posees.len()
        invariant
            0 <= i <= posees@.len(),
            ids_avant@ == ids_tables(avant@),
            r@ == nouvelles(posees@.subrange(0, i as int), ids_avant@),
        decreases posees@.len() - i,
    {
        assert(posees@.subrange(0, i + 1).drop_last() =~= posees@.subrange(0, i as int));
        if !contient(ids_avant.as_slice(), posees[i].id) {
            r.push(TablePosee { id: posees[i].id, libelle: posees[i].libelle.clone() });
        }
        i = i + 1;
    }
    assert(posees@.subrange(0, posees@.len() as int) =~= posees@);
    r
}

/// Le libellé d'avant d'une table, pour l'événement de désactivation.
pub fn libelle_avant(avant: &[TableVue], table_id: u128) -> (r: Option<String>)
    ensures
        match r {
            Some(l) => exists|k: int|
                0 <= k < avant@.len() && avant@[k].id == table_id && avant@[k].libelle == l && (
                forall|j: int| 0 <= j < k ==> avant@[j].id != table_id),
            None => forall|j: int| 0 <= j < avant@.len() ==> avant@[j].id != table_id,
        },
{
    let mut i: usize = 0;
    while i < avant.len()
        invariant
            0 <= i <= avant@.len(),
            forall|j: int| 0 <= j < i ==> avant@[j].id != table_id,
        decreases avant@.len() - i,
    {
        if avant[i].id == table_id {
            return Some(avant[i].libelle.clone());
        }
        i = i + 1;
    }
    None
}

/// Ce qui est retenu ne figure pas parmi les exclus, et figurait parmi les candidats.
pub proof fn loi_hors_de(xs: Seq<u128>, exclus: Seq<u128>, x: u128)
    ensures
        exclus.contains(x) ==> !hors_de(xs, exclus).contains(x),
        hors_de(xs, exclus).contains(x) ==> xs.contains(x),
        xs.contains(x) && !exclus.contains(x) ==> hors_de(xs, exclus).contains(x),
    decreases xs.len(),
{
    if xs.len() > 0 {
        loi_hors_de(xs.drop_last(), exclus, x);
        let debut = hors_de(xs.drop_last(), exclus);
        if hors_de(xs, exclus).contains(x) {
            let k = choose|k: int| 0 <= k < hors_de(xs, exclus).len() && hors_de(xs, exclus)[k] == x;
            if k < debut.len() {
                assert(debut[k] == x);
                let k2 = choose|k2: int| 0 <= k2 < xs.drop_last().len() && xs.drop_last()[k2] == x;
                assert(xs[k2] == x);
            } else {
                assert(xs[xs.len() - 1] == x);
            }
        }
        if xs.contains(x) && !exclus.contains(x) {
            let k = choose|k: int| 0 <= k < xs.len() && xs[k] == x;
            if k < xs.len() - 1 {
                assert(xs.drop_last()[k] == x);
                let k2 = choose|k2: int| 0 <= k2 < debut.len() && debut[k2] == x;
                assert(hors_de(xs, exclus)[k2] == x);
            } else {
                assert(hors_de(xs, exclus) == debut.push(x));
                assert(hors_de(xs, exclus)[debut.len() as int] == x);
            }
        }
    }
}

/// Un plan de salle réenregistré à l'identique ne produit aucun événement : toute table
/// désactivée puis reposée est absente des désactivations, et toute table reposée qui existait
/// avant est absente des créations.
pub proof fn loi_plan_inchange(
    desactivees: Seq<u128>,
    posees: Seq<TablePosee>,
    avant: Seq<u128>,
)
    requires
        forall|x: u128| desactivees.contains(x) ==> ids_posees(posees).contains(x),
        forall|i: int| 0 <= i < posees.len() ==> avant.contains(#[trigger] posees[i].id),
    ensures
        hors_de(desactivees, ids_posees(posees)).len() == 0,
        nouvelles(posees, avant).len() == 0,
    decreases posees.len() + desactivees.len(),
{
    lemme_hors_de_vide(desactivees, ids_posees(posees));
    lemme_nouvelles_vides(posees, avant);
}

proof fn lemme_hors_de_vide(xs: Seq<u128>, exclus: Seq<u128>)
    requires
        forall|x: u128| xs.contains(x) ==> exclus.contains(x),
    ensures
        hors_de(xs, exclus).len() == 0,
    decreases xs.len(),
{
    if xs.len() > 0 {
        assert forall|x: u128| xs.drop_last().contains(x) implies exclus.contains(x) by {
            let k = choose|k: int| 0 <= k < xs.drop_last().len() && xs.drop_last()[k] == x;
            assert(xs[k] == x);
        }
        lemme_hors_de_vide(xs.drop_last(), exclus);
        assert(xs.contains(xs.last())) by {
            assert(xs[xs.len() - 1] == xs.last());
        }
    }
}

proof fn lemme_nouvelles_vides(posees: Seq<TablePosee>, avant: Seq<u128>)
    requires
        forall|i: int| 0 <= i < posees.len() ==> avant.contains(#[trigger] posees[i].id),
    ensures
        nouvelles(posees, avant).len() == 0,
    decreases posees.len(),
{
    if posees.len() > 0 {
        assert forall|i: int| 0 <= i < posees.drop_last().len() implies avant.contains(
            #[trigger] posees.drop_last()[i].id,
        ) by {
            assert(posees.drop_last()[i] == posees[i]);
        }
        lemme_nouvelles_vides(posees.drop_last(), avant);
        assert(avant.contains(posees[posees.len() - 1].id));
    }
}

// =================================================================================================
//  Ce que le répertoire rend aux autres modules
// =================================================================================================

/// Une table d'un point de vente, telle que le répertoire la rend.
#[derive(Debug, Clone, PartialEq, Eq)]
pub struct TablePdv {
    pub id: u128,
    pub libelle: String,
}

/// Un point de vente avec ses tables, tel que le répertoire le rend. Sans table : un comptoir.
#[derive(Debug, Clone, PartialEq, Eq)]
pub struct PointDeVente {
    pub id: u128,
    pub etablissement_id: u128,
    pub module_code: String,
    pub nom: String,
    pub caisse_id: Option<u128>,
    pub tables: Vec<TablePdv>,
}

/// Le point de vente qu'une vue décrit : les mêmes champs et les mêmes tables, dans l'ordre.
pub fn en_point_de_vente(vue: PointDeVenteVue) -> (r: PointDeVente)
    ensures
        r.id == vue.id,
        r.etablissement_id == vue.etablissement_id,
        r.module_code == vue.module_code,
        r.nom == vue.nom,
        r.caisse_id == vue.caisse_id,
        r.tables@.len() == vue.tables@.len(),
        forall|i: int|
            0 <= i < vue.tables@.len() ==> (#[trigger] r.tables@[i]).id == vue.tables@[i].id
                && r.tables@[i].libelle == vue.tables@[i].libelle,
{
    let mut tables: Vec<TablePdv> = Vec::new();
    let mut i: usize = 0;
    while i < vue.tables.len()
        invariant
            0 <= i <= vue.tables@.len(),
            tables@.len() == i,
            forall|j: int|
                0 <= j < i ==> (#[trigger] tables@[j]).id == vue.tables@[j].id
                    && tables@[j].libelle == vue.tables@[j].libelle,
        decreases vue.tables@.len() - i,
    {
        tables.push(TablePdv { id: vue.tables[i].id, libelle: vue.tables[i].libelle.clone() });
        i = i + 1;
    }
    PointDeVente {
        id: vue.id,
        etablissement_id: vue.etablissement_id,
        module_code: vue.module_code,
        nom: vue.nom,
        caisse_id: vue.caisse_id,
        tables,
    }
}

} // verus!
