//! Pages of rows of a loaded data set, with the offset rules of a data
//! frame slice: a negative start counts from the end, and the page is
//! clipped to the rows that exist.
use vstd::prelude::*;
use crate::tabla::{Columna, ColumnaVista, Tabla, TablaVista, Valores, ValoresVista};

verus! {

/// `x` clipped to the interval `[0, n]`.
pub open spec fn acotado(x: int, n: int) -> int {
    if x < 0 {
        0
    } else if x > n {
        n
    } else {
        x
    }
}

/// Number of rows asked for: the page size read as an unsigned 64-bit
/// number, as a cast of a signed size to `usize` gives on 64-bit targets.
pub open spec fn largo_pedido(tamano: i64) -> int {
    if tamano >= 0 {
        tamano as int
    } else {
        tamano + 0x1_0000_0000_0000_0000
    }
}

/// First row and number of rows of the page that starts at `inicio` and
/// asks for `largo` rows of `n`.
pub open spec fn rango_bloque(inicio: int, largo: int, n: int) -> (int, int) {
    let desde = if inicio < 0 {
        inicio + n
    } else {
        inicio
    };
    let a = acotado(desde, n);
    let b = acotado(desde + largo, n);
    (a, b - a)
}

/// Cells `[a, a + l)` of a column.
pub open spec fn tramo_valores(v: ValoresVista, a: int, l: int) -> ValoresVista {
    match v {
        ValoresVista::Texto(s) => ValoresVista::Texto(s.subrange(a, a + l)),
        ValoresVista::Fecha(s) => ValoresVista::Fecha(s.subrange(a, a + l)),
        ValoresVista::Entero(s) => ValoresVista::Entero(s.subrange(a, a + l)),
        ValoresVista::Decimal(s) => ValoresVista::Decimal(s.subrange(a, a + l)),
    }
}

/// The page of a data set.
pub open spec fn bloque_de(t: TablaVista, inicio: i64, tamano: i64) -> TablaVista {
    let (a, l) = rango_bloque(inicio as int, largo_pedido(tamano), t.filas as int);
    TablaVista {
        filas: l as nat,
        columnas: t.columnas.map_values(
            |c: ColumnaVista| ColumnaVista { nombre: c.nombre, valores: tramo_valores(c.valores, a, l) },
        ),
    }
}

/// Copies cells `[a, b)` of a text column.
fn tramo_texto(v: &Vec<Option<String>>, a: usize, b: usize) -> (r: Vec<Option<String>>)
    requires
        a <= b <= v@.len(),
    ensures
        r.deep_view() == v.deep_view().subrange(a as int, b as int),
{
    let mut r: Vec<Option<String>> = Vec::new();
    let mut i = a;
    while i < b
        invariant
            a <= i <= b <= v@.len(),
            r.deep_view() == v.deep_view().subrange(a as int, i as int),
        decreases b - i,
    {
        let celda = match &v[i] {
            Some(s) => Some(s.clone()),
            None => None,
        };
        assert(celda.deep_view() == v.deep_view()[i as int]);
        let ghost anterior = r.deep_view();
        r.push(celda);
        assert(r.deep_view() =~= anterior.push(celda.deep_view()));
        assert(r.deep_view() =~= v.deep_view().subrange(a as int, i + 1));
        i = i + 1;
    }
    r
}

/// Copies cells `[a, b)` of a column of copyable cells.
fn tramo_copias<T: Copy>(v: &Vec<Option<T>>, a: usize, b: usize) -> (r: Vec<Option<T>>)
    requires
        a <= b <= v@.len(),
    ensures
        r@ == v@.subrange(a as int, b as int),
{
    let mut r: Vec<Option<T>> = Vec::new();
    let mut i = a;
    while i < b
        invariant
            a <= i <= b <= v@.len(),
            r@ == v@.subrange(a as int, i as int),
        decreases b - i,
    {
        let celda = match &v[i] {
            Some(x) => Some(*x),
            None => None,
        };
        r.push(celda);
        assert(r@ =~= v@.subrange(a as int, i + 1));
        i = i + 1;
    }
    r
}

/// Copies cells `[a, b)` of a column.
fn tramo_columna(c: &Columna, a: usize, b: usize) -> (r: Columna)
    requires
        a <= b <= c@.valores.len(),
    ensures
        r@ == (ColumnaVista { nombre: c@.nombre, valores: tramo_valores(c@.valores, a as int, b - a) }),
{
    let valores = match &c.valores {
        Valores::Texto(v) => Valores::Texto(tramo_texto(v, a, b)),
        Valores::Fecha(v) => Valores::Fecha(tramo_copias(v, a, b)),
        Valores::Entero(v) => Valores::Entero(tramo_copias(v, a, b)),
        Valores::Decimal(v) => Valores::Decimal(tramo_texto(v, a, b)),
    };
    Columna { nombre: c.nombre.clone(), valores }
}

/// First row and number of rows of a page.
pub fn rango(inicio: i64, tamano: i64, n: usize) -> (r: (usize, usize))
    requires
        n <= i64::MAX,
    ensures
        r.0 as int == rango_bloque(inicio as int, largo_pedido(tamano), n as int).0,
        r.1 as int == rango_bloque(inicio as int, largo_pedido(tamano), n as int).1,
        r.0 + r.1 <= n,
{
    let total = n as i128;
    let desde: i128 = if inicio < 0 {
        inicio as i128 + total
    } else {
        inicio as i128
    };
    let largo: i128 = if tamano >= 0 {
        tamano as i128
    } else {
        tamano as i128 + 0x1_0000_0000_0000_0000i128
    };
    let hasta = desde + largo;
    let a: i128 = if desde < 0 {
        0
    } else if desde > total {
        total
    } else {
        desde
    };
    let b: i128 = if hasta < 0 {
        0
    } else if hasta > total {
        total
    } else {
        hasta
    };
    (a as usize, (b - a) as usize)
}

/// The page of rows that starts at `inicio` (counted from the end when
/// negative) and holds up to `tamano` rows (a negative size read as a
/// 64-bit unsigned number).
pub fn bloque(t: &Tabla, inicio: i64, tamano: i64) -> (r: Tabla)
    requires
        t@.bien_formada(),
        t.filas <= i64::MAX,
    ensures
        r@ == bloque_de(t@, inicio, tamano),
        r@.bien_formada(),
{
    let (a, l) = rango(inicio, tamano, t.filas);
    let b = a + l;
    let mut columnas: Vec<Columna> = Vec::new();
    let mut i: usize = 0;
    while i < t.columnas.len()
        invariant
            i <= t.columnas@.len(),
            a + l == b <= t.filas,
            t@.bien_formada(),
            columnas@.len() == i,
            forall|j: int|
                0 <= j < i ==> (#[trigger] columnas@[j])@ == (ColumnaVista {
                    nombre: t@.columnas[j].nombre,
                    valores: tramo_valores(t@.columnas[j].valores, a as int, l as int),
                }),
        decreases t.columnas@.len() - i,
    {
        assert(t@.columnas[i as int] == t.columnas@[i as int]@);
        let c = tramo_columna(&t.columnas[i], a, b);
        columnas.push(c);
        i = i + 1;
    }
    let r = Tabla { filas: l, columnas };
    assert(r@.columnas =~= bloque_de(t@, inicio, tamano).columnas);
    r
}

/// Pages of the same size laid one after another cover the rows without
/// gap or overlap: the page that starts where another ends begins right
/// after the last row of that page.
pub proof fn ley_paginas_contiguas(inicio: int, largo: int, n: int)
    requires
        0 <= inicio,
        0 <= largo,
        0 <= n,
    ensures
        rango_bloque(inicio + largo, largo, n).0 == rango_bloque(inicio, largo, n).0
            + rango_bloque(inicio, largo, n).1,
{
}

/// A page that lies inside the data set holds exactly the rows asked for.
pub proof fn ley_pagina_interior(inicio: int, largo: int, n: int)
    requires
        0 <= inicio,
        0 <= largo,
        inicio + largo <= n,
    ensures
        rango_bloque(inicio, largo, n) == (inicio, largo),
{
}

/// Cell `k` of column `x` and cell `a + k` of column `y` are of the same
/// kind and hold the same value.
pub open spec fn misma_celda(x: ValoresVista, k: int, y: ValoresVista, a: int) -> bool {
    match (x, y) {
        (ValoresVista::Texto(s), ValoresVista::Texto(u)) => s[k] == u[a + k],
        (ValoresVista::Fecha(s), ValoresVista::Fecha(u)) => s[k] == u[a + k],
        (ValoresVista::Entero(s), ValoresVista::Entero(u)) => s[k] == u[a + k],
        (ValoresVista::Decimal(s), ValoresVista::Decimal(u)) => s[k] == u[a + k],
        _ => false,
    }
}

/// A page takes the same rows from every column: it has the columns of the
/// data set, with their names, each with one cell per row of the page, and
/// cell `k` of every column of the page is cell `a + k` of that column of
/// the data set, `a` being the first row of the page.
pub proof fn ley_pagina_por_filas(t: TablaVista, inicio: i64, tamano: i64)
    requires
        t.bien_formada(),
    ensures
        ({
            let p = bloque_de(t, inicio, tamano);
            let a = rango_bloque(inicio as int, largo_pedido(tamano), t.filas as int).0;
            &&& p.bien_formada()
            &&& a + p.filas <= t.filas
            &&& p.columnas.len() == t.columnas.len()
            &&& forall|j: int| 0 <= j < t.columnas.len() ==> (#[trigger] p.columnas[j]).nombre == t.columnas[j].nombre
            &&& forall|j: int, k: int|
                0 <= j < t.columnas.len() && 0 <= k < p.filas ==> #[trigger] misma_celda(p.columnas[j].valores, k, t.columnas[j].valores, a)
        }),
{
    let p = bloque_de(t, inicio, tamano);
    let (a, l) = rango_bloque(inicio as int, largo_pedido(tamano), t.filas as int);
    assert forall|j: int| 0 <= j < p.columnas.len() implies (#[trigger] p.columnas[j]).valores.len() == p.filas by {
        assert(t.columnas[j].valores.len() == t.filas);
    }
    assert forall|j: int, k: int|
        0 <= j < t.columnas.len() && 0 <= k < p.filas implies #[trigger] misma_celda(p.columnas[j].valores, k, t.columnas[j].valores, a) by {
        assert(t.columnas[j].valores.len() == t.filas);
    }
}

} // verus!
