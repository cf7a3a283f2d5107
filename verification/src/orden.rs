//! Lexicographic order of texts by code point, the order in which `String`
//! values compare (UTF-8 byte order and code point order agree), and a
//! verified comparison.
use vstd::prelude::*;
use crate::texto::caracteres;

verus! {

/// `a` comes before `b` or equals it, comparing character by character by
/// code point, a proper prefix coming first.
pub open spec fn menor_o_igual(a: Seq<char>, b: Seq<char>) -> bool
    decreases a.len(),
{
    if a.len() == 0 {
        true
    } else if b.len() == 0 {
        false
    } else if a[0] != b[0] {
        (a[0] as int) < (b[0] as int)
    } else {
        menor_o_igual(a.drop_first(), b.drop_first())
    }
}

/// Every text comes before or equals itself.
pub proof fn lema_reflexivo(a: Seq<char>)
    ensures
        menor_o_igual(a, a),
    decreases a.len(),
{
    if a.len() > 0 {
        lema_reflexivo(a.drop_first());
    }
}

/// Of two texts, one comes before or equals the other.
pub proof fn lema_total(a: Seq<char>, b: Seq<char>)
    ensures
        menor_o_igual(a, b) || menor_o_igual(b, a),
    decreases a.len(),
{
    if a.len() > 0 && b.len() > 0 {
        if a[0] == b[0] {
            lema_total(a.drop_first(), b.drop_first());
        } else {
            assert((a[0] as int) != (b[0] as int));
        }
    }
}

/// Texts that come before each other are equal.
pub proof fn lema_antisimetrico(a: Seq<char>, b: Seq<char>)
    requires
        menor_o_igual(a, b),
        menor_o_igual(b, a),
    ensures
        a == b,
    decreases a.len(),
{
    if a.len() > 0 && b.len() > 0 {
        if a[0] == b[0] {
            lema_antisimetrico(a.drop_first(), b.drop_first());
            assert(a =~= seq![a[0]] + a.drop_first());
            assert(b =~= seq![b[0]] + b.drop_first());
        } else {
            let x = a[0] as int;
            let y = b[0] as int;
            assert(x < y && y < x);
        }
    } else {
        assert(a =~= b);
    }
}

/// The order is transitive.
pub proof fn lema_transitivo(a: Seq<char>, b: Seq<char>, c: Seq<char>)
    requires
        menor_o_igual(a, b),
        menor_o_igual(b, c),
    ensures
        menor_o_igual(a, c),
    decreases a.len(),
{
    if a.len() > 0 && b.len() > 0 && c.len() > 0 {
        if a[0] == b[0] && b[0] == c[0] {
            lema_transitivo(a.drop_first(), b.drop_first(), c.drop_first());
        }
    }
}

/// Two texts that agree up to a first differing character are ordered by
/// the code points of those characters, whatever follows them.
pub proof fn ley_orden_por_codigo(p: Seq<char>, x: char, y: char, r: Seq<char>, s: Seq<char>)
    requires
        x != y,
    ensures
        menor_o_igual(p + seq![x] + r, p + seq![y] + s) <==> (x as int) < (y as int),
    decreases p.len(),
{
    let a = p + seq![x] + r;
    let b = p + seq![y] + s;
    if p.len() == 0 {
        assert(a[0] == x);
        assert(b[0] == y);
    } else {
        assert(a[0] == p[0]);
        assert(b[0] == p[0]);
        assert(a.drop_first() =~= p.drop_first() + seq![x] + r);
        assert(b.drop_first() =~= p.drop_first() + seq![y] + s);
        ley_orden_por_codigo(p.drop_first(), x, y, r, s);
    }
}

/// A text comes before every text that extends it, and a longer text never
/// comes before its proper prefix.
pub proof fn ley_prefijo_primero(p: Seq<char>, r: Seq<char>)
    ensures
        menor_o_igual(p, p + r),
        r.len() > 0 ==> !menor_o_igual(p + r, p),
    decreases p.len(),
{
    if p.len() > 0 {
        assert((p + r)[0] == p[0]);
        assert((p + r).drop_first() =~= p.drop_first() + r);
        ley_prefijo_primero(p.drop_first(), r);
    } else {
        assert(p + r =~= r);
    }
}

/// Compares two texts.
pub fn comparar(a: &str, b: &str) -> (r: bool)
    ensures
        r == menor_o_igual(a@, b@),
{
    let x = caracteres(a);
    let y = caracteres(b);
    let mut i: usize = 0;
    assert(x@.skip(0) =~= x@);
    assert(y@.skip(0) =~= y@);
    while i < x.len() && i < y.len() && x[i] == y[i]
        invariant
            i <= x@.len(),
            i <= y@.len(),
            x@ == a@,
            y@ == b@,
            menor_o_igual(a@, b@) == menor_o_igual(x@.skip(i as int), y@.skip(i as int)),
        decreases x@.len() - i,
    {
        assert(x@.skip(i as int).drop_first() =~= x@.skip(i + 1));
        assert(y@.skip(i as int).drop_first() =~= y@.skip(i + 1));
        i = i + 1;
    }
    if i == x.len() {
        true
    } else if i == y.len() {
        false
    } else {
        assert(x@.skip(i as int)[0] == x@[i as int]);
        assert(y@.skip(i as int)[0] == y@[i as int]);
        x[i] < y[i]
    }
}

} // verus!
