//! Opérations sur le texte dont les règles du domaine ont besoin : égalité, nettoyage des
//! espaces, classes de caractères.
//!
//! Les espaces retirés aux bords d'une saisie sont ceux de la propriété Unicode `White_Space`,
//! la même que celle qu'applique le nettoyage standard d'une chaîne.

use vstd::prelude::*;

verus! {

/// Un caractère d'espacement au sens Unicode (`White_Space`).
pub open spec fn est_espace(c: char) -> bool {
    ||| ('\u{9}' <= c && c <= '\u{d}')
    ||| c == ' '
    ||| c == '\u{85}'
    ||| c == '\u{a0}'
    ||| c == '\u{1680}'
    ||| ('\u{2000}' <= c && c <= '\u{200a}')
    ||| c == '\u{2028}'
    ||| c == '\u{2029}'
    ||| c == '\u{202f}'
    ||| c == '\u{205f}'
    ||| c == '\u{3000}'
}

/// `[a, b)` délimite ce qui reste de `s` une fois les espaces retirés aux deux bords.
///
/// Une chaîne faite uniquement d'espaces se réduit à l'intervalle vide placé en fin de chaîne.
pub open spec fn bornes_rognees(s: Seq<char>, a: int, b: int) -> bool {
    &&& 0 <= a <= b <= s.len()
    &&& forall|i: int| 0 <= i < a ==> est_espace(#[trigger] s[i])
    &&& forall|i: int| b <= i < s.len() ==> est_espace(#[trigger] s[i])
    &&& a < b ==> !est_espace(s[a]) && !est_espace(s[b - 1])
    &&& a == b ==> a == s.len()
}

/// `s` sans ses espaces de tête ni de queue.
pub open spec fn rogne(s: Seq<char>) -> Seq<char> {
    let (a, b) = choose|a: int, b: int| bornes_rognees(s, a, b);
    s.subrange(a, b)
}

/// Les bornes du nettoyage sont uniques : `rogne` est bien définie.
pub proof fn lemme_bornes_uniques(s: Seq<char>, a: int, b: int, a2: int, b2: int)
    requires
        bornes_rognees(s, a, b),
        bornes_rognees(s, a2, b2),
    ensures
        a == a2,
        b == b2,
{
    if a < b && a2 < b2 {
        if a < a2 {
            assert(est_espace(s[a]));
        } else if a2 < a {
            assert(est_espace(s[a2]));
        }
        if b < b2 {
            assert(est_espace(s[b2 - 1]));
        } else if b2 < b {
            assert(est_espace(s[b - 1]));
        }
    } else if a < b {
        assert(est_espace(s[a]));
    } else if a2 < b2 {
        assert(est_espace(s[a2]));
    }
}

/// Tout jeu de bornes valide donne la chaîne nettoyée.
pub proof fn lemme_rogne(s: Seq<char>, a: int, b: int)
    requires
        bornes_rognees(s, a, b),
    ensures
        rogne(s) == s.subrange(a, b),
{
    let (a2, b2) = choose|a2: int, b2: int| bornes_rognees(s, a2, b2);
    lemme_bornes_uniques(s, a, b, a2, b2);
}

/// Le caractère est-il un espace Unicode ?
pub fn espace(c: char) -> (r: bool)
    ensures
        r == est_espace(c),
{
    ('\u{9}' <= c && c <= '\u{d}') || c == ' ' || c == '\u{85}' || c == '\u{a0}' || c
        == '\u{1680}' || ('\u{2000}' <= c && c <= '\u{200a}') || c == '\u{2028}' || c
        == '\u{2029}' || c == '\u{202f}' || c == '\u{205f}' || c == '\u{3000}'
}

/// Retire les espaces de tête et de queue.
pub fn rogner(s: &str) -> (r: &str)
    ensures
        r@ == rogne(s@),
{
    let n = s.unicode_len();
    let mut a: usize = 0;
    while a < n && espace(s.get_char(a))
        invariant
            n == s@.len(),
            0 <= a <= n,
            forall|i: int| 0 <= i < a ==> est_espace(#[trigger] s@[i]),
        decreases n - a,
    {
        a = a + 1;
    }
    let mut b: usize = n;
    if a < n {
        while b > a && espace(s.get_char(b - 1))
            invariant
                n == s@.len(),
                0 <= a < n,
                !est_espace(s@[a as int]),
                a <= b <= n,
                forall|i: int| b <= i < n ==> est_espace(#[trigger] s@[i]),
            decreases b,
        {
            b = b - 1;
        }
        assert(b > a) by {
            if b == a {
                assert(!est_espace(s@[a as int]));
            }
        }
    }
    proof {
        lemme_rogne(s@, a as int, b as int);
    }
    s.substring_char(a, b)
}

/// Le texte n'est-il fait que d'espaces (ou vide) ?
pub fn est_blanc(s: &str) -> (r: bool)
    ensures
        r == (rogne(s@).len() == 0),
{
    let t = rogner(s);
    t.unicode_len() == 0
}

/// Deux textes sont égaux caractère par caractère.
pub fn egal(a: &str, b: &str) -> (r: bool)
    ensures
        r == (a@ == b@),
{
    let n = a.unicode_len();
    if n != b.unicode_len() {
        return false;
    }
    let mut i: usize = 0;
    while i < n
        invariant
            n == a@.len(),
            n == b@.len(),
            0 <= i <= n,
            forall|j: int| 0 <= j < i ==> a@[j] == b@[j],
        decreases n - i,
    {
        if a.get_char(i) != b.get_char(i) {
            return false;
        }
        i = i + 1;
    }
    assert(a@ =~= b@);
    true
}

} // verus!

verus! {

/// Ajoute un caractère en fin de texte.
///
/// Appelle `String::push` de la bibliothèque standard ; le contrat reprend ce que sa
/// documentation promet : le texte gagne ce caractère à la fin, et rien d'autre ne change.
#[verifier::external_body]
pub(crate) fn pousser(s: &mut String, c: char)
    ensures
        final(s)@ == old(s)@.push(c),
{
    s.push(c);
}

/// Ajoute le texte `t` à la fin de `s`.
pub fn ajouter_texte(s: &mut String, t: &str)
    ensures
        final(s)@ == old(s)@ + t@,
{
    s.append(t);
}

/// Le texte sans ses espaces de bord, s'il compte de 1 à `max` caractères.
pub fn rogner_borne(texte: &str, max: usize) -> (r: Option<String>)
    ensures
        (0 < rogne(texte@).len() <= max) ==> (r matches Some(t) && t@ == rogne(texte@)),
        !(0 < rogne(texte@).len() <= max) ==> r is None,
{
    let t = rogner(texte);
    let n = t.unicode_len();
    if n == 0 || n > max {
        None
    } else {
        Some(t.to_owned())
    }
}

/// La vue d'un texte facultatif.
pub open spec fn vue_option(o: Option<String>) -> Option<Seq<char>> {
    match o {
        Some(s) => Some(s@),
        None => None,
    }
}

/// Deux textes facultatifs sont égaux : absents tous deux, ou présents et égaux.
pub fn egal_option(a: &Option<String>, b: &Option<String>) -> (r: bool)
    ensures
        r == (vue_option(*a) == vue_option(*b)),
{
    match (a, b) {
        (Some(x), Some(y)) => egal(x.as_str(), y.as_str()),
        (None, None) => true,
        _ => false,
    }
}

/// Une copie d'un texte facultatif.
pub fn copier_option(o: &Option<String>) -> (r: Option<String>)
    ensures
        r == *o,
{
    match o {
        Some(s) => Some(s.clone()),
        None => None,
    }
}

/// Le chiffre décimal `d` (de 0 à 9) en caractère.
pub open spec fn car_chiffre(d: int) -> char {
    if d == 0 { '0' } else if d == 1 { '1' } else if d == 2 { '2' } else if d == 3 { '3' }
    else if d == 4 { '4' } else if d == 5 { '5' } else if d == 6 { '6' } else if d == 7 { '7' }
    else if d == 8 { '8' } else { '9' }
}

/// La valeur du chiffre décimal `c`.
pub open spec fn valeur_chiffre(c: char) -> int {
    (c as int) - ('0' as int)
}

/// `c` est-il un chiffre décimal ASCII ?
pub open spec fn est_chiffre(c: char) -> bool {
    '0' <= c && c <= '9'
}

/// L'écriture décimale d'un entier naturel, sans zéro de tête (« 0 » pour zéro).
pub open spec fn decimal(n: nat) -> Seq<char>
    decreases n,
{
    if n < 10 {
        seq![car_chiffre(n as int)]
    } else {
        decimal(n / 10).push(car_chiffre((n % 10) as int))
    }
}

/// La valeur d'une suite de chiffres décimaux.
pub open spec fn valeur_decimale(s: Seq<char>) -> nat
    decreases s.len(),
{
    if s.len() == 0 {
        0
    } else {
        (valeur_decimale(s.drop_last()) * 10 + valeur_chiffre(s.last())) as nat
    }
}

/// Le caractère du chiffre `d`.
pub fn chiffre(d: u64) -> (c: char)
    requires
        d < 10,
    ensures
        c == car_chiffre(d as int),
        est_chiffre(c),
        valeur_chiffre(c) == d,
{
    if d == 0 { '0' } else if d == 1 { '1' } else if d == 2 { '2' } else if d == 3 { '3' }
    else if d == 4 { '4' } else if d == 5 { '5' } else if d == 6 { '6' } else if d == 7 { '7' }
    else if d == 8 { '8' } else { '9' }
}

/// Ajoute l'écriture décimale de `n` à la fin de `s`.
pub fn ecrire_decimal(s: &mut String, n: u64)
    ensures
        final(s)@ == old(s)@ + decimal(n as nat),
    decreases n,
{
    if n < 10 {
        pousser(s, chiffre(n));
        assert(decimal(n as nat) =~= seq![car_chiffre(n as int)]);
    } else {
        ecrire_decimal(s, n / 10);
        pousser(s, chiffre(n % 10));
        assert(decimal(n as nat) == decimal((n / 10) as nat).push(car_chiffre((n % 10) as int)));
    }
}

/// L'écriture décimale d'un entier signé : le signe `-` devant la valeur absolue.
pub open spec fn decimal_signe(n: int) -> Seq<char> {
    if n < 0 {
        seq!['-'] + decimal((-n) as nat)
    } else {
        decimal(n as nat)
    }
}

/// Ajoute l'écriture décimale de `n` à la fin de `s`.
pub fn ecrire_decimal_signe(s: &mut String, n: i64)
    ensures
        final(s)@ == old(s)@ + decimal_signe(n as int),
{
    if n < 0 {
        pousser(s, '-');
        let absolu: u64 = if n == i64::MIN {
            9223372036854775808u64
        } else {
            (-n) as u64
        };
        let ghost avant = s@;
        ecrire_decimal(s, absolu);
        assert(s@ =~= old(s)@ + (seq!['-'] + decimal((-n) as nat)));
    } else {
        ecrire_decimal(s, n as u64);
    }
}

} // verus!

verus! {

/// Le chiffre hexadécimal minuscule de `n` (de 0 à 15).
pub open spec fn car_hex(n: int) -> char {
    if n < 10 {
        car_chiffre(n)
    } else if n == 10 {
        'a'
    } else if n == 11 {
        'b'
    } else if n == 12 {
        'c'
    } else if n == 13 {
        'd'
    } else if n == 14 {
        'e'
    } else {
        'f'
    }
}

/// Le `k`-ième quartet (de 0 à 31, du poids fort au poids faible) d'un identifiant de 128 bits.
pub open spec fn quartet(id: u128, k: int) -> int {
    ((id >> ((124 - 4 * k) as u128)) & 15u128) as int
}

/// Les quartets `de` à `a` (exclu) d'un identifiant, en hexadécimal minuscule.
pub open spec fn hex_quartets(id: u128, de: int, a: int) -> Seq<char>
    decreases a - de,
{
    if a <= de {
        Seq::empty()
    } else {
        hex_quartets(id, de, a - 1).push(car_hex(quartet(id, a - 1)))
    }
}

/// La forme textuelle canonique d'un UUID : 32 chiffres hexadécimaux minuscules, groupés
/// 8-4-4-4-12 et séparés par des tirets.
pub open spec fn uuid_texte(id: u128) -> Seq<char> {
    hex_quartets(id, 0, 8) + "-"@ + hex_quartets(id, 8, 12) + "-"@ + hex_quartets(id, 12, 16)
        + "-"@ + hex_quartets(id, 16, 20) + "-"@ + hex_quartets(id, 20, 32)
}

fn hex(n: u128) -> (c: char)
    requires
        n < 16,
    ensures
        c == car_hex(n as int),
{
    if n < 10 {
        chiffre(n as u64)
    } else if n == 10 {
        'a'
    } else if n == 11 {
        'b'
    } else if n == 12 {
        'c'
    } else if n == 13 {
        'd'
    } else if n == 14 {
        'e'
    } else {
        'f'
    }
}

/// Ajoute les quartets `de` à `a` de l'identifiant, en hexadécimal.
fn ecrire_quartets(s: &mut String, id: u128, de: u32, a: u32)
    requires
        de <= a <= 32,
    ensures
        final(s)@ == old(s)@ + hex_quartets(id, de as int, a as int),
{
    let mut k = de;
    assert(hex_quartets(id, de as int, de as int) =~= Seq::<char>::empty());
    assert(s@ =~= old(s)@ + hex_quartets(id, de as int, k as int));
    while k < a
        invariant
            de <= k <= a <= 32,
            s@ == old(s)@ + hex_quartets(id, de as int, k as int),
        decreases a - k,
    {
        let decalage: u128 = (124 - 4 * k) as u128;
        let n = (id >> decalage) & 15u128;
        assert(n < 16) by (bit_vector)
            requires
                n == (id >> decalage) & 15u128,
        ;
        pousser(s, hex(n));
        k = k + 1;
        assert(hex_quartets(id, de as int, k as int) == hex_quartets(id, de as int, k - 1).push(
            car_hex(quartet(id, k - 1)),
        ));
        assert(s@ =~= old(s)@ + hex_quartets(id, de as int, k as int));
    }
}

/// Ajoute la forme textuelle canonique d'un UUID.
pub fn ecrire_uuid(s: &mut String, id: u128)
    ensures
        final(s)@ == old(s)@ + uuid_texte(id),
{
    let ghost debut = s@;
    ecrire_quartets(s, id, 0, 8);
    s.append("-");
    ecrire_quartets(s, id, 8, 12);
    s.append("-");
    ecrire_quartets(s, id, 12, 16);
    s.append("-");
    ecrire_quartets(s, id, 16, 20);
    s.append("-");
    ecrire_quartets(s, id, 20, 32);
    assert(s@ =~= debut + uuid_texte(id));
}

} // verus!
