//! Verified text helpers: equality of two strings, substring search (used by
//! the listing filter), and a trusted lowering to lower case for the
//! case-insensitive search.

use vstd::prelude::*;

verus! {

/// What `str::to_lowercase` returns for a given sequence of characters.
pub uninterp spec fn minusculas_de(s: Seq<char>) -> Seq<char>;

/// Relies on `str::to_lowercase` of std: the result is a function of the
/// characters alone (Unicode lower-casing).
#[verifier::external_body]
pub(crate) fn minusculas(s: &str) -> (r: String)
    ensures
        r@ == minusculas_de(s@),
{
    s.to_lowercase()
}

/// Whether the two strings hold the same characters.
pub fn textos_iguales(a: &str, b: &str) -> (r: bool)
    ensures
        r == (a@ == b@),
{
    let la = a.unicode_len();
    let lb = b.unicode_len();
    if la != lb {
        return false;
    }
    let mut i: usize = 0;
    while i < la
        invariant
            i <= la,
            la == a@.len(),
            lb == b@.len(),
            la == lb,
            forall|j: int| 0 <= j < i ==> a@[j] == b@[j],
        decreases la - i,
    {
        if a.get_char(i) != b.get_char(i) {
            return false;
        }
        i += 1;
    }
    proof {
        assert(a@ =~= b@);
    }
    true
}

/// `patron` occurs as a contiguous run inside `texto`.
pub open spec fn es_subcadena(patron: Seq<char>, texto: Seq<char>) -> bool {
    exists|i: int|
        0 <= i <= texto.len() - patron.len() && #[trigger] texto.subrange(
            i,
            i + patron.len(),
        ) == patron
}

/// Whether `patron` matches `texto` at position `i`.
fn coincide_en(texto: &str, patron: &str, i: usize) -> (r: bool)
    requires
        i + patron@.len() <= texto@.len(),
    ensures
        r == (texto@.subrange(i as int, i + patron@.len()) == patron@),
{
    let lt = texto.unicode_len();
    let lp = patron.unicode_len();
    let mut j: usize = 0;
    while j < lp
        invariant
            j <= lp,
            lp == patron@.len(),
            lt == texto@.len(),
            i + lp <= lt,
            forall|k: int| 0 <= k < j ==> texto@[i + k] == patron@[k],
        decreases lp - j,
    {
        if texto.get_char(i + j) != patron.get_char(j) {
            proof {
                assert(texto@.subrange(i as int, i + patron@.len())[j as int] == texto@[i + j]);
            }
            return false;
        }
        j += 1;
    }
    proof {
        assert(texto@.subrange(i as int, i + patron@.len()) =~= patron@);
    }
    true
}

/// Naive substring search: whether `patron` occurs anywhere inside `texto`.
pub fn contiene(texto: &str, patron: &str) -> (r: bool)
    ensures
        r == es_subcadena(patron@, texto@),
{
    let lt = texto.unicode_len();
    let lp = patron.unicode_len();
    if lp > lt {
        return false;
    }
    if lp == 0 {
        proof {
            assert(texto@.subrange(0, 0 + patron@.len() as int) =~= patron@);
        }
        return true;
    }
    let mut i: usize = 0;
    while i <= lt - lp
        invariant
            1 <= lp <= lt,
            i <= lt - lp + 1,
            lt == texto@.len(),
            lp == patron@.len(),
            forall|k: int|
                0 <= k < i ==> #[trigger] texto@.subrange(k, k + patron@.len()) != patron@,
        decreases lt - lp + 1 - i,
    {
        if coincide_en(texto, patron, i) {
            return true;
        }
        i += 1;
    }
    false
}

} // verus!
