//! Character-level reading of texts: the characters of a string, the
//! removal of surrounding white space, and the two tests that decide whether
//! a text column may become numeric.
use vstd::prelude::*;

verus! {

broadcast use vstd::string::group_string_axioms;

/// The characters with the Unicode `White_Space` property (the characters
/// that `char::is_whitespace` accepts).
pub open spec fn es_blanco(c: char) -> bool {
    let u = c as u32;
    ||| 0x09 <= u <= 0x0D
    ||| u == 0x20
    ||| u == 0x85
    ||| u == 0xA0
    ||| u == 0x1680
    ||| 0x2000 <= u <= 0x200A
    ||| u == 0x2028
    ||| u == 0x2029
    ||| u == 0x202F
    ||| u == 0x205F
    ||| u == 0x3000
}

/// The text without its leading white space.
pub open spec fn sin_blancos_al_inicio(s: Seq<char>) -> Seq<char>
    decreases s.len(),
{
    if s.len() > 0 && es_blanco(s[0]) {
        sin_blancos_al_inicio(s.drop_first())
    } else {
        s
    }
}

/// The text without its trailing white space.
pub open spec fn sin_blancos_al_final(s: Seq<char>) -> Seq<char>
    decreases s.len(),
{
    if s.len() > 0 && es_blanco(s.last()) {
        sin_blancos_al_final(s.drop_last())
    } else {
        s
    }
}

/// The text without leading and trailing white space (what `str::trim`
/// gives).
pub open spec fn recortado(s: Seq<char>) -> Seq<char> {
    sin_blancos_al_final(sin_blancos_al_inicio(s))
}

/// An ASCII decimal digit.
pub open spec fn es_digito(c: char) -> bool {
    '0' <= c <= '9'
}

/// After trimming, the text has more than one character, starts with `0`
/// and holds only ASCII digits: a code such as `007` that must stay text.
pub open spec fn con_ceros_iniciales(s: Seq<char>) -> bool {
    let t = recortado(s);
    &&& t.len() > 1
    &&& t[0] == '0'
    &&& forall|k: int| 0 <= k < t.len() ==> es_digito(#[trigger] t[k])
}

/// After trimming, the text is not empty and holds a decimal point.
pub open spec fn con_punto_decimal(s: Seq<char>) -> bool {
    let t = recortado(s);
    t.len() > 0 && t.contains('.')
}

/// Tests whether a character has the Unicode `White_Space` property.
pub fn blanco(c: char) -> (r: bool)
    ensures
        r == es_blanco(c),
{
    let u = c as u32;
    (0x09 <= u && u <= 0x0D) || u == 0x20 || u == 0x85 || u == 0xA0 || u == 0x1680 || (0x2000
        <= u && u <= 0x200A) || u == 0x2028 || u == 0x2029 || u == 0x202F || u == 0x205F || u
        == 0x3000
}

/// The characters of a string, in order.
pub fn caracteres(s: &str) -> (r: Vec<char>)
    ensures
        r@ == s@,
{
    let mut r: Vec<char> = Vec::new();
    let n = s.unicode_len();
    for i in 0..n
        invariant
            n == s@.len(),
            r@ == s@.take(i as int),
    {
        r.push(s.get_char(i));
        assert(s@.take(i + 1) =~= s@.take(i as int).push(s@[i as int]));
    }
    assert(s@.take(n as int) =~= s@);
    r
}

/// Bounds of the trimmed part of a sequence of characters: the trimmed text
/// is the subrange between the two bounds.
pub fn limites_recortados(v: &Vec<char>) -> (r: (usize, usize))
    ensures
        r.0 <= r.1 <= v@.len(),
        recortado(v@) == v@.subrange(r.0 as int, r.1 as int),
{
    let n = v.len();
    let mut i: usize = 0;
    assert(v@.subrange(0, n as int) =~= v@);
    while i < n && blanco(v[i])
        invariant
            i <= n == v@.len(),
            sin_blancos_al_inicio(v@) == sin_blancos_al_inicio(v@.subrange(i as int, n as int)),
        decreases n - i,
    {
        assert(v@.subrange(i as int, n as int).drop_first() =~= v@.subrange(
            i + 1,
            n as int,
        ));
        i = i + 1;
    }
    assert(sin_blancos_al_inicio(v@) == v@.subrange(i as int, n as int));
    let mut j: usize = n;
    while j > i && blanco(v[j - 1])
        invariant
            i <= j <= n == v@.len(),
            sin_blancos_al_final(v@.subrange(i as int, n as int)) == sin_blancos_al_final(
                v@.subrange(i as int, j as int),
            ),
        decreases j,
    {
        assert(v@.subrange(i as int, j as int).drop_last() =~= v@.subrange(
            i as int,
            j - 1,
        ));
        j = j - 1;
    }
    (i, j)
}

/// Tests `con_ceros_iniciales` on a string.
pub fn tiene_cero_inicial(s: &str) -> (r: bool)
    ensures
        r == con_ceros_iniciales(s@),
{
    let v = caracteres(s);
    let (i, j) = limites_recortados(&v);
    let ghost t = v@.subrange(i as int, j as int);
    assert(recortado(s@) == t);
    if j - i <= 1 || v[i] != '0' {
        return false;
    }
    let mut k = i;
    while k < j
        invariant
            i <= k <= j <= v@.len(),
            t == v@.subrange(i as int, j as int),
            recortado(s@) == t,
            forall|m: int| 0 <= m < k - i ==> es_digito(#[trigger] t[m]),
        decreases j - k,
    {
        if !('0' <= v[k] && v[k] <= '9') {
            assert(!es_digito(t[k - i]));
            assert(!con_ceros_iniciales(s@));
            return false;
        }
        k = k + 1;
    }
    true
}

/// Tests `con_punto_decimal` on a string.
pub fn tiene_punto_decimal(s: &str) -> (r: bool)
    ensures
        r == con_punto_decimal(s@),
{
    let v = caracteres(s);
    let (i, j) = limites_recortados(&v);
    let ghost t = v@.subrange(i as int, j as int);
    assert(recortado(s@) == t);
    let mut k = i;
    while k < j
        invariant
            i <= k <= j <= v@.len(),
            t == v@.subrange(i as int, j as int),
            recortado(s@) == t,
            forall|m: int| 0 <= m < k - i ==> t[m] != '.',
        decreases j - k,
    {
        if v[k] == '.' {
            assert(t[k - i] == '.');
            assert(t.contains('.'));
            return true;
        }
        k = k + 1;
    }
    false
}

/// A code made of a `0` followed by one or more ASCII digits, with any
/// white space around it, is a code with leading zeros: `01`, `007`, ` 09 `.
pub proof fn ley_codigo_con_ceros(s: Seq<char>, d: Seq<char>)
    requires
        recortado(s) == seq!['0'] + d,
        d.len() >= 1,
        forall|k: int| 0 <= k < d.len() ==> '0' <= #[trigger] d[k] <= '9',
    ensures
        con_ceros_iniciales(s),
{
    let t = recortado(s);
    assert forall|k: int| 0 <= k < t.len() implies es_digito(#[trigger] t[k]) by {
        if k > 0 {
            assert(t[k] == d[k - 1]);
        }
    }
}

} // verus!
