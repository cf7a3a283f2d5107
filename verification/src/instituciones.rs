//! Bookkeeping of the institutions that publish data sets: which ones of
//! the current list are missing from the local cache, how the cache is
//! brought up to date, and the list shown to the user, sorted by display
//! name.
use vstd::prelude::*;
use crate::orden::{comparar, lema_reflexivo, lema_total, lema_transitivo, menor_o_igual};

verus! {

broadcast use {vstd::seq_lib::group_seq_properties, vstd::seq::group_seq_axioms};

/// An institution as the catalogue describes it.
pub struct Institucion {
    pub id: String,
    pub name: String,
    pub display_name: String,
}

impl Institucion {
    /// A copy of the institution.
    pub fn copia(&self) -> (r: Institucion)
        ensures
            r == *self,
    {
        Institucion {
            id: self.id.clone(),
            name: self.name.clone(),
            display_name: self.display_name.clone(),
        }
    }
}

/// The institutions kept between runs.
pub struct CacheInstituciones {
    pub instituciones: Vec<Institucion>,
}

impl Default for CacheInstituciones {
    fn default() -> (r: Self)
        ensures
            r.instituciones@ == Seq::<Institucion>::empty(),
    {
        CacheInstituciones { instituciones: Vec::new() }
    }
}

/// Names of a sequence of institutions.
pub open spec fn nombres(s: Seq<Institucion>) -> Seq<Seq<char>> {
    s.map_values(|i: Institucion| i.name@)
}

/// The name belongs to no institution of `s`.
pub open spec fn fuera_de(s: Seq<Institucion>) -> spec_fn(Seq<char>) -> bool {
    |n: Seq<char>| !nombres(s).contains(n)
}

/// The names of the list that no institution of the cache has, in list
/// order.
pub open spec fn faltantes(lista: Seq<Seq<char>>, s: Seq<Institucion>) -> Seq<Seq<char>> {
    lista.filter(fuera_de(s))
}

/// The institution's name is in the list.
pub open spec fn en_lista(lista: Seq<Seq<char>>) -> spec_fn(Institucion) -> bool {
    |i: Institucion| lista.contains(i.name@)
}

/// The cache after adding new institutions and keeping only those whose
/// name is in the current list.
pub open spec fn cache_actualizada(anterior: Seq<Institucion>, nuevas: Seq<Institucion>, lista: Seq<Seq<char>>) -> Seq<Institucion> {
    (anterior + nuevas).filter(en_lista(lista))
}

/// The last institution of `s` with name `n`.
pub open spec fn ultima_con_nombre(s: Seq<Institucion>, n: Seq<char>) -> Option<Institucion>
    decreases s.len(),
{
    if s.len() == 0 {
        None
    } else if s.last().name@ == n {
        Some(s.last())
    } else {
        ultima_con_nombre(s.drop_last(), n)
    }
}

/// For each name of the list, in order, the last institution of `s` with
/// that name, when there is one.
pub open spec fn seleccion(lista: Seq<Seq<char>>, s: Seq<Institucion>) -> Seq<Institucion> {
    lista.filter_map(|n: Seq<char>| ultima_con_nombre(s, n))
}

/// The institution's display name is `k`.
pub open spec fn con_nombre_visible(k: Seq<char>) -> spec_fn(Institucion) -> bool {
    |i: Institucion| i.display_name@ == k
}

/// Sorted by display name.
pub open spec fn ordenada(s: Seq<Institucion>) -> bool {
    forall|i: int, j: int|
        0 <= i < j < s.len() ==> menor_o_igual(#[trigger] s[i].display_name@, #[trigger] s[j].display_name@)
}

/// `r` is `s` sorted by display name, institutions with the same display
/// name keeping their order: sorted, and for every display name the same
/// institutions in the same order.
pub open spec fn orden_estable(r: Seq<Institucion>, s: Seq<Institucion>) -> bool {
    &&& ordenada(r)
    &&& forall|k: Seq<char>| #[trigger] r.filter(con_nombre_visible(k)) == s.filter(con_nombre_visible(k))
}

/// Tests whether some institution of `s` has name `n`.
fn tiene_nombre(s: &Vec<Institucion>, n: &String) -> (r: bool)
    ensures
        r == nombres(s@).contains(n@),
{
    let mut j: usize = 0;
    while j < s.len()
        invariant
            j <= s@.len(),
            forall|m: int| 0 <= m < j ==> (#[trigger] s@[m]).name@ != n@,
        decreases s@.len() - j,
    {
        if s[j].name == *n {
            assert(nombres(s@)[j as int] == n@);
            return true;
        }
        j = j + 1;
    }
    assert forall|m: int| 0 <= m < nombres(s@).len() implies #[trigger] nombres(s@)[m] != n@ by {
        assert(nombres(s@)[m] == s@[m].name@);
    }
    false
}

/// Tests whether `n` is in the list.
fn figura_en(lista: &Vec<String>, n: &String) -> (r: bool)
    ensures
        r == lista.deep_view().contains(n@),
{
    let mut j: usize = 0;
    while j < lista.len()
        invariant
            j <= lista@.len(),
            forall|m: int| 0 <= m < j ==> (#[trigger] lista.deep_view()[m]) != n@,
        decreases lista@.len() - j,
    {
        if lista[j] == *n {
            assert(lista.deep_view()[j as int] == n@);
            return true;
        }
        j = j + 1;
    }
    false
}

/// The names of the list that the cache lacks, in list order (a name that
/// appears twice in the list appears twice here).
pub fn instituciones_faltantes(lista: &Vec<String>, cache: &CacheInstituciones) -> (r: Vec<String>)
    ensures
        r.deep_view() == faltantes(lista.deep_view(), cache.instituciones@),
{
    let ghost p = fuera_de(cache.instituciones@);
    let mut r: Vec<String> = Vec::new();
    let mut i: usize = 0;
    while i < lista.len()
        invariant
            i <= lista@.len(),
            p == fuera_de(cache.instituciones@),
            r.deep_view() == lista.deep_view().take(i as int).filter(p),
        decreases lista@.len() - i,
    {
        let ghost antes = r.deep_view();
        assert(lista.deep_view().take(i + 1) =~= lista.deep_view().take(i as int).push(lista[i as int]@));
        proof {
            lista.deep_view().take(i as int).lemma_filter_push(lista[i as int]@, p);
        }
        if !tiene_nombre(&cache.instituciones, &lista[i]) {
            r.push(lista[i].clone());
            assert(r.deep_view() =~= antes.push(lista[i as int]@));
        }
        i = i + 1;
    }
    assert(lista.deep_view().take(lista@.len() as int) =~= lista.deep_view());
    r
}

/// Adds the new institutions to the cache and keeps only those whose name
/// is in the current list, in their order.
pub fn actualizar_cache(cache: &mut CacheInstituciones, nuevas: Vec<Institucion>, lista: &Vec<String>)
    ensures
        final(cache).instituciones@ == cache_actualizada(old(cache).instituciones@, nuevas@, lista.deep_view()),
{
    let ghost p = en_lista(lista.deep_view());
    let ghost anterior = cache.instituciones@;
    let mut r: Vec<Institucion> = Vec::new();
    let mut i: usize = 0;
    while i < cache.instituciones.len()
        invariant
            i <= anterior.len(),
            cache.instituciones@ == anterior,
            p == en_lista(lista.deep_view()),
            r@ == anterior.take(i as int).filter(p),
        decreases anterior.len() - i,
    {
        assert(anterior.take(i + 1) =~= anterior.take(i as int).push(anterior[i as int]));
        proof {
            anterior.take(i as int).lemma_filter_push(anterior[i as int], p);
        }
        if figura_en(lista, &cache.instituciones[i].name) {
            r.push(cache.instituciones[i].copia());
        }
        i = i + 1;
    }
    assert(anterior.take(anterior.len() as int) =~= anterior);
    let mut j: usize = 0;
    while j < nuevas.len()
        invariant
            j <= nuevas@.len(),
            p == en_lista(lista.deep_view()),
            r@ == (anterior + nuevas@.take(j as int)).filter(p),
        decreases nuevas@.len() - j,
    {
        assert(anterior + nuevas@.take(j + 1) =~= (anterior + nuevas@.take(j as int)).push(nuevas@[j as int]));
        proof {
            (anterior + nuevas@.take(j as int)).lemma_filter_push(nuevas@[j as int], p);
        }
        if figura_en(lista, &nuevas[j].name) {
            r.push(nuevas[j].copia());
        }
        j = j + 1;
    }
    assert(anterior + nuevas@.take(nuevas@.len() as int) =~= anterior + nuevas@);
    cache.instituciones = r;
}

/// The last institution of `s` with name `n`.
fn buscar_ultima(s: &Vec<Institucion>, n: &String) -> (r: Option<Institucion>)
    ensures
        r == ultima_con_nombre(s@, n@),
{
    let mut j: usize = s.len();
    assert(s@.take(j as int) =~= s@);
    while j > 0
        invariant
            j <= s@.len(),
            ultima_con_nombre(s@, n@) == ultima_con_nombre(s@.take(j as int), n@),
        decreases j,
    {
        assert(s@.take(j as int).drop_last() =~= s@.take(j - 1));
        assert(s@.take(j as int).last() == s@[j - 1]);
        if s[j - 1].name == *n {
            return Some(s[j - 1].copia());
        }
        j = j - 1;
    }
    None
}

/// For each name of the list, the last cached institution with that name.
fn seleccionar(lista: &Vec<String>, s: &Vec<Institucion>) -> (r: Vec<Institucion>)
    ensures
        r@ == seleccion(lista.deep_view(), s@),
{
    let ghost f = |n: Seq<char>| ultima_con_nombre(s@, n);
    let mut r: Vec<Institucion> = Vec::new();
    let mut i: usize = 0;
    while i < lista.len()
        invariant
            i <= lista@.len(),
            f == (|n: Seq<char>| ultima_con_nombre(s@, n)),
            r@ == lista.deep_view().take(i as int).filter_map(f),
        decreases lista@.len() - i,
    {
        assert(lista.deep_view().take(i + 1).drop_last() =~= lista.deep_view().take(i as int));
        assert(lista.deep_view().take(i + 1).last() == lista[i as int]@);
        let encontrada = buscar_ultima(s, &lista[i]);
        match encontrada {
            Some(x) => {
                let ghost antes = r@;
                r.push(x);
                assert(r@ =~= antes + seq![x]);
            },
            None => {},
        }
        i = i + 1;
    }
    assert(lista.deep_view().take(lista@.len() as int) =~= lista.deep_view());
    r
}

/// Inserting `x` at `pos` of a sorted sequence, after every element whose
/// display name comes before or equals its own and before every other one,
/// keeps the sequence sorted and appends `x` to the elements with its
/// display name.
proof fn lema_insercion(r: Seq<Institucion>, pos: int, x: Institucion)
    requires
        0 <= pos <= r.len(),
        ordenada(r),
        forall|j: int| 0 <= j < pos ==> menor_o_igual(#[trigger] r[j].display_name@, x.display_name@),
        forall|j: int| pos <= j < r.len() ==> !menor_o_igual(#[trigger] r[j].display_name@, x.display_name@),
    ensures
        ordenada(r.insert(pos, x)),
        forall|k: Seq<char>| #[trigger] r.insert(pos, x).filter(con_nombre_visible(k)) == if x.display_name@ == k {
            r.filter(con_nombre_visible(k)).push(x)
        } else {
            r.filter(con_nombre_visible(k))
        },
{
    let r2 = r.insert(pos, x);
    assert forall|a: int, b: int| 0 <= a < b < r2.len() implies menor_o_igual(#[trigger] r2[a].display_name@, #[trigger] r2[b].display_name@) by {
        if a < pos && b < pos {
        } else if a < pos && b == pos {
        } else if a < pos {
            assert(r2[b] == r[b - 1]);
        } else if a == pos {
            assert(r2[b] == r[b - 1]);
            lema_total(r[b - 1].display_name@, x.display_name@);
        } else {
            assert(r2[a] == r[a - 1]);
            assert(r2[b] == r[b - 1]);
        }
    }
    let izq = r.take(pos);
    let der = r.skip(pos);
    assert(r =~= izq + der);
    assert(r2 =~= izq + seq![x] + der);
    assert forall|k: Seq<char>| #[trigger] r.insert(pos, x).filter(con_nombre_visible(k)) == if x.display_name@ == k {
        r.filter(con_nombre_visible(k)).push(x)
    } else {
        r.filter(con_nombre_visible(k))
    } by {
        let p = con_nombre_visible(k);
        Seq::filter_distributes_over_add(izq + seq![x], der, p);
        Seq::filter_distributes_over_add(izq, seq![x], p);
        Seq::filter_distributes_over_add(izq, der, p);
        Seq::<Institucion>::empty().lemma_filter_push(x, p);
        Seq::<Institucion>::empty().lemma_filter_len(p);
        assert(Seq::<Institucion>::empty().push(x) =~= seq![x]);
        if x.display_name@ == k {
            assert forall|j: int| 0 <= j < der.len() implies !p(#[trigger] der[j]) by {
                assert(der[j] == r[pos + j]);
                lema_reflexivo(x.display_name@);
            }
            der.lemma_all_neg_filter_empty(p);
            assert(der.filter(p) =~= Seq::<Institucion>::empty());
            assert(r2.filter(p) =~= r.filter(p).push(x));
        } else {
            assert(r2.filter(p) =~= r.filter(p));
        }
    }
}

/// Sorts institutions by display name, keeping the order of those with the
/// same display name.
fn ordenar(s: &Vec<Institucion>) -> (r: Vec<Institucion>)
    ensures
        orden_estable(r@, s@),
{
    let mut r: Vec<Institucion> = Vec::new();
    let mut i: usize = 0;
    while i < s.len()
        invariant
            i <= s@.len(),
            ordenada(r@),
            forall|k: Seq<char>| #[trigger] r@.filter(con_nombre_visible(k)) == s@.take(i as int).filter(con_nombre_visible(k)),
        decreases s@.len() - i,
    {
        let x = s[i].copia();
        let mut pos: usize = 0;
        while pos < r.len() && comparar(r[pos].display_name.as_str(), x.display_name.as_str())
            invariant
                pos <= r@.len(),
                forall|j: int| 0 <= j < pos ==> menor_o_igual(#[trigger] r@[j].display_name@, x.display_name@),
            decreases r@.len() - pos,
        {
            pos = pos + 1;
        }
        proof {
            assert forall|j: int| pos <= j < r@.len() implies !menor_o_igual(#[trigger] r@[j].display_name@, x.display_name@) by {
                if menor_o_igual(r@[j].display_name@, x.display_name@) {
                    assert(j != pos);
                    lema_transitivo(r@[pos as int].display_name@, r@[j].display_name@, x.display_name@);
                }
            }
            lema_insercion(r@, pos as int, x);
            assert forall|k: Seq<char>| #[trigger] s@.take(i + 1).filter(con_nombre_visible(k)) == if x.display_name@ == k {
                s@.take(i as int).filter(con_nombre_visible(k)).push(x)
            } else {
                s@.take(i as int).filter(con_nombre_visible(k))
            } by {
                assert(s@.take(i + 1) =~= s@.take(i as int).push(x));
                s@.take(i as int).lemma_filter_push(x, con_nombre_visible(k));
            }
        }
        r.insert(pos, x);
        i = i + 1;
    }
    assert(s@.take(s@.len() as int) =~= s@);
    r
}

/// The current institutions as shown to the user: for each name of the
/// list, the last cached institution with that name, sorted by display
/// name, those with the same display name in list order.
pub fn instituciones_vigentes(lista: &Vec<String>, cache: &CacheInstituciones) -> (r: Vec<Institucion>)
    ensures
        orden_estable(r@, seleccion(lista.deep_view(), cache.instituciones@)),
{
    let seleccionadas = seleccionar(lista, &cache.instituciones);
    ordenar(&seleccionadas)
}

/// An institution of `s` with name `n` makes the search for the last one
/// with that name succeed.
proof fn lema_ultima_existe(s: Seq<Institucion>, n: Seq<char>, i: int)
    requires
        0 <= i < s.len(),
        s[i].name@ == n,
    ensures
        ultima_con_nombre(s, n) is Some,
    decreases s.len(),
{
    if s.last().name@ != n {
        assert(i < s.len() - 1);
        assert(s.drop_last()[i] == s[i]);
        lema_ultima_existe(s.drop_last(), n, i);
    }
}

/// What the search for the last institution with a name finds is an
/// institution of `s` with that name.
proof fn lema_ultima_pertenece(s: Seq<Institucion>, n: Seq<char>)
    ensures
        ultima_con_nombre(s, n) matches Some(e) ==> s.contains(e) && e.name@ == n,
    decreases s.len(),
{
    if s.len() > 0 && s.last().name@ != n {
        lema_ultima_pertenece(s.drop_last(), n);
        if let Some(e) = ultima_con_nombre(s, n) {
            let k = choose|k: int| 0 <= k < s.drop_last().len() && s.drop_last()[k] == e;
            assert(s[k] == e);
        }
    } else if s.len() > 0 {
        assert(s[s.len() - 1] == s.last());
    }
}

/// The names reported missing are names of the list that no cached
/// institution has.
pub proof fn ley_faltantes(lista: Seq<Seq<char>>, s: Seq<Institucion>)
    ensures
        forall|n: Seq<char>| #[trigger] faltantes(lista, s).contains(n) ==> lista.contains(n) && !nombres(s).contains(n),
{
    assert forall|n: Seq<char>| #[trigger] faltantes(lista, s).contains(n) implies lista.contains(n) && !nombres(s).contains(n) by {
        let k = choose|k: int| 0 <= k < faltantes(lista, s).len() && faltantes(lista, s)[k] == n;
        lista.lemma_filter_pred(fuera_de(s), k);
        lista.lemma_filter_contains_rev(fuera_de(s), n);
    }
}

/// After an update, the cache holds only institutions whose name is in the
/// list.
pub proof fn ley_cache_de_la_lista(anterior: Seq<Institucion>, nuevas: Seq<Institucion>, lista: Seq<Seq<char>>)
    ensures
        forall|i: int|
            0 <= i < cache_actualizada(anterior, nuevas, lista).len() ==> lista.contains(
                (#[trigger] cache_actualizada(anterior, nuevas, lista)[i]).name@,
            ),
{
    assert forall|i: int| 0 <= i < cache_actualizada(anterior, nuevas, lista).len() implies lista.contains(
        (#[trigger] cache_actualizada(anterior, nuevas, lista)[i]).name@,
    ) by {
        (anterior + nuevas).lemma_filter_pred(en_lista(lista), i);
    }
}

/// Position in the old and new institutions together of one named `n`,
/// when the new ones cover the missing names and `n` is in the list.
proof fn indice_con_nombre(anterior: Seq<Institucion>, nuevas: Seq<Institucion>, lista: Seq<Seq<char>>, n: Seq<char>) -> (j: int)
    requires
        forall|m: Seq<char>| #[trigger] faltantes(lista, anterior).contains(m) ==> nombres(nuevas).contains(m),
        lista.contains(n),
    ensures
        0 <= j < (anterior + nuevas).len(),
        (anterior + nuevas)[j].name@ == n,
{
    let todas = anterior + nuevas;
    if nombres(anterior).contains(n) {
        let k = choose|k: int| 0 <= k < nombres(anterior).len() && nombres(anterior)[k] == n;
        assert(todas[k] == anterior[k]);
        k
    } else {
        let i = choose|i: int| 0 <= i < lista.len() && lista[i] == n;
        lista.lemma_filter_contains(fuera_de(anterior), i);
        assert(faltantes(lista, anterior).contains(n));
        assert(nombres(nuevas).contains(n));
        let k = choose|k: int| 0 <= k < nombres(nuevas).len() && nombres(nuevas)[k] == n;
        assert(todas[anterior.len() + k] == nuevas[k]);
        anterior.len() + k
    }
}

/// When the new institutions cover every name reported missing, the updated
/// cache has an institution for every name of the list.
pub proof fn ley_cache_completa(anterior: Seq<Institucion>, nuevas: Seq<Institucion>, lista: Seq<Seq<char>>)
    requires
        forall|n: Seq<char>| #[trigger] faltantes(lista, anterior).contains(n) ==> nombres(nuevas).contains(n),
    ensures
        forall|n: Seq<char>| #[trigger] lista.contains(n) ==> ultima_con_nombre(cache_actualizada(anterior, nuevas, lista), n) is Some,
{
    let todas = anterior + nuevas;
    let p = en_lista(lista);
    assert forall|n: Seq<char>| #[trigger] lista.contains(n) implies ultima_con_nombre(cache_actualizada(anterior, nuevas, lista), n) is Some by {
        let j = indice_con_nombre(anterior, nuevas, lista, n);
        todas.lemma_filter_contains(p, j);
        let c = cache_actualizada(anterior, nuevas, lista);
        let m = choose|m: int| 0 <= m < c.len() && c[m] == todas[j];
        lema_ultima_existe(c, n, m);
    }
}

/// Every institution shown is a cached institution whose name is in the
/// list.
pub proof fn ley_vigentes_de_la_lista(lista: Seq<Seq<char>>, s: Seq<Institucion>, r: Seq<Institucion>)
    requires
        orden_estable(r, seleccion(lista, s)),
    ensures
        forall|i: int| 0 <= i < r.len() ==> lista.contains((#[trigger] r[i]).name@) && s.contains(r[i]),
{
    let f = |n: Seq<char>| ultima_con_nombre(s, n);
    assert forall|i: int| 0 <= i < r.len() implies lista.contains((#[trigger] r[i]).name@) && s.contains(r[i]) by {
        let e = r[i];
        let p = con_nombre_visible(e.display_name@);
        r.lemma_filter_contains(p, i);
        assert(r.filter(p) == seleccion(lista, s).filter(p));
        seleccion(lista, s).lemma_filter_contains_rev(p, e);
        lista.lemma_filter_map_contains(f, e);
        let n = choose|n: Seq<char>| lista.contains(n) && f(n) == Some(e);
        lema_ultima_pertenece(s, n);
    }
}

} // verus!
