//! A data set loaded from a CSV file, the classification of its columns
//! into dates, integers, decimals and text, the report shown to the user,
//! and the pages of rows handed to the interface.
use vstd::prelude::*;
use crate::lectura::{
    conversion_decimal, conversion_decimal_entera, conversion_decimal_texto, conversion_entera,
    conversion_entera_decimal, conversion_fecha, textos_enteros, conversion_fecha_decimal,
    conversion_fecha_texto,
};
use crate::texto::{con_ceros_iniciales, con_punto_decimal, tiene_cero_inicial, tiene_punto_decimal};
use crate::tipos::{TipoColumna, TipoDato};

verus! {

/// Cells of a column, by the kind of value they hold.
pub enum Valores {
    /// Text cells, as read.
    Texto(Vec<Option<String>>),
    /// Dates, as days since 1970-01-01.
    Fecha(Vec<Option<i32>>),
    /// 64-bit integers.
    Entero(Vec<Option<i64>>),
    /// Decimal numbers, kept as the text that converts to them.
    Decimal(Vec<Option<String>>),
}

/// A named column.
pub struct Columna {
    pub nombre: String,
    pub valores: Valores,
}

/// A data set: its number of rows and its columns in file order.
pub struct Tabla {
    pub filas: usize,
    pub columnas: Vec<Columna>,
}

/// Model of the cells of a column.
pub enum ValoresVista {
    Texto(Seq<Option<Seq<char>>>),
    Fecha(Seq<Option<i32>>),
    Entero(Seq<Option<i64>>),
    Decimal(Seq<Option<Seq<char>>>),
}

/// Model of a column.
pub struct ColumnaVista {
    pub nombre: Seq<char>,
    pub valores: ValoresVista,
}

/// Model of a data set.
pub struct TablaVista {
    pub filas: nat,
    pub columnas: Seq<ColumnaVista>,
}

impl View for Valores {
    type V = ValoresVista;

    open spec fn view(&self) -> ValoresVista {
        match self {
            Valores::Texto(v) => ValoresVista::Texto(v.deep_view()),
            Valores::Fecha(v) => ValoresVista::Fecha(v@),
            Valores::Entero(v) => ValoresVista::Entero(v@),
            Valores::Decimal(v) => ValoresVista::Decimal(v.deep_view()),
        }
    }
}

impl View for Columna {
    type V = ColumnaVista;

    open spec fn view(&self) -> ColumnaVista {
        ColumnaVista { nombre: self.nombre@, valores: self.valores@ }
    }
}

impl View for Tabla {
    type V = TablaVista;

    open spec fn view(&self) -> TablaVista {
        TablaVista { filas: self.filas as nat, columnas: self.columnas@.map_values(|c: Columna| c@) }
    }
}

impl ValoresVista {
    /// Number of cells.
    pub open spec fn len(self) -> nat {
        match self {
            ValoresVista::Texto(v) => v.len(),
            ValoresVista::Fecha(v) => v.len(),
            ValoresVista::Entero(v) => v.len(),
            ValoresVista::Decimal(v) => v.len(),
        }
    }
}

impl TablaVista {
    /// Every column has one cell per row.
    pub open spec fn bien_formada(self) -> bool {
        forall|i: int| 0 <= i < self.columnas.len() ==> (#[trigger] self.columnas[i]).valores.len() == self.filas
    }
}

impl Columna {
    /// Storage type of the column's cells.
    pub fn tipo_dato(&self) -> (r: TipoDato)
        ensures
            r == tipo_de_valores(self@.valores),
    {
        match &self.valores {
            Valores::Texto(_) => TipoDato::Cadena,
            Valores::Fecha(_) => TipoDato::Date,
            Valores::Entero(_) => TipoDato::Int64,
            Valores::Decimal(_) => TipoDato::Float64,
        }
    }
}

/// Storage type of a column's cells.
pub open spec fn tipo_de_valores(v: ValoresVista) -> TipoDato {
    match v {
        ValoresVista::Texto(_) => TipoDato::Cadena,
        ValoresVista::Fecha(_) => TipoDato::Date,
        ValoresVista::Entero(_) => TipoDato::Int64,
        ValoresVista::Decimal(_) => TipoDato::Float64,
    }
}

/// Number of empty cells.
pub open spec fn nulos<A>(s: Seq<Option<A>>) -> nat
    decreases s.len(),
{
    if s.len() == 0 {
        0
    } else {
        nulos(s.drop_last()) + if s.last() is None {
            1nat
        } else {
            0nat
        }
    }
}

/// The date formats tried, in order.
pub open spec fn formato_fecha(k: int) -> Seq<char> {
    if k == 0 {
        "%Y-%m-%d"@
    } else if k == 1 {
        "%d-%m-%Y"@
    } else if k == 2 {
        "%Y/%m/%d"@
    } else {
        "%d/%m/%Y"@
    }
}

/// Number of date formats tried.
pub const NUM_FORMATOS: usize = 4;

/// The dates of the first format, from the `k`-th on, that converts the
/// cells without adding empty cells.
pub open spec fn fechas_desde(v: Seq<Option<Seq<char>>>, k: int) -> Option<Seq<Option<i32>>>
    decreases NUM_FORMATOS - k,
{
    if k < 0 || k >= NUM_FORMATOS {
        None
    } else {
        match conversion_fecha(v, formato_fecha(k)) {
            Ok(d) => if nulos(d) == nulos(v) {
                Some(d)
            } else {
                fechas_desde(v, k + 1)
            },
            Err(_) => fechas_desde(v, k + 1),
        }
    }
}

/// A text column that is not wholly empty becomes a date column with the
/// first format that converts it without adding empty cells; every other
/// column stays as it is.
pub open spec fn como_fecha(c: ColumnaVista) -> ColumnaVista {
    match c.valores {
        ValoresVista::Texto(v) => if nulos(v) == v.len() {
            c
        } else {
            match fechas_desde(v, 0) {
                Some(d) => ColumnaVista { nombre: c.nombre, valores: ValoresVista::Fecha(d) },
                None => c,
            }
        },
        _ => c,
    }
}

/// The cell holds a code with leading zeros.
pub open spec fn celda_con_ceros(o: Option<Seq<char>>) -> bool {
    match o {
        Some(t) => con_ceros_iniciales(t),
        None => false,
    }
}

/// The cell holds a decimal point.
pub open spec fn celda_con_punto(o: Option<Seq<char>>) -> bool {
    match o {
        Some(t) => con_punto_decimal(t),
        None => false,
    }
}

/// Some cell is a code with leading zeros.
pub open spec fn algun_cero_inicial(v: Seq<Option<Seq<char>>>) -> bool {
    exists|i: int| 0 <= i < v.len() && celda_con_ceros(#[trigger] v[i])
}

/// Some cell holds a decimal point.
pub open spec fn algun_decimal(v: Seq<Option<Seq<char>>>) -> bool {
    exists|i: int| 0 <= i < v.len() && celda_con_punto(#[trigger] v[i])
}

/// A text column without codes with leading zeros becomes a decimal column
/// when some cell has a decimal point and all convert to decimals, and an
/// integer column when no cell has one and all convert to integers; a
/// decimal column becomes an integer column when `polars` casts its numbers
/// to integers; every other column stays as it is.
pub open spec fn como_numero(c: ColumnaVista) -> ColumnaVista {
    match c.valores {
        ValoresVista::Texto(v) => if algun_cero_inicial(v) {
            c
        } else if algun_decimal(v) {
            if conversion_decimal(v) is Ok {
                ColumnaVista { nombre: c.nombre, valores: ValoresVista::Decimal(v) }
            } else {
                c
            }
        } else {
            match conversion_entera(v) {
                Ok(n) => ColumnaVista { nombre: c.nombre, valores: ValoresVista::Entero(n) },
                Err(_) => c,
            }
        },
        ValoresVista::Decimal(v) => match conversion_decimal_entera(v) {
            Ok(n) => ColumnaVista { nombre: c.nombre, valores: ValoresVista::Entero(n) },
            Err(_) => c,
        },
        _ => c,
    }
}

/// A column converted towards coordinates: text, integer and date columns
/// become decimal columns when `polars` casts them to decimals; a decimal
/// column, and every column that does not cast, stays as it is.
pub open spec fn como_coordenada(c: ColumnaVista) -> ColumnaVista {
    match c.valores {
        ValoresVista::Texto(v) => if conversion_decimal(v) is Ok {
            ColumnaVista { nombre: c.nombre, valores: ValoresVista::Decimal(v) }
        } else {
            c
        },
        ValoresVista::Entero(n) => match conversion_entera_decimal(n) {
            Ok(t) => ColumnaVista { nombre: c.nombre, valores: ValoresVista::Decimal(t) },
            Err(_) => c,
        },
        ValoresVista::Fecha(d) => match conversion_fecha_decimal(d) {
            Ok(t) => ColumnaVista { nombre: c.nombre, valores: ValoresVista::Decimal(t) },
            Err(_) => c,
        },
        ValoresVista::Decimal(_) => c,
    }
}

/// A column converted towards text: an integer column becomes the decimal
/// text of its numbers; date and decimal columns become text columns with
/// the text that `polars` casts them to; a text column, and every column
/// that does not cast, stays as it is.
pub open spec fn como_texto(c: ColumnaVista) -> ColumnaVista {
    match c.valores {
        ValoresVista::Texto(_) => c,
        ValoresVista::Fecha(d) => match conversion_fecha_texto(d) {
            Ok(t) => ColumnaVista { nombre: c.nombre, valores: ValoresVista::Texto(t) },
            Err(_) => c,
        },
        ValoresVista::Entero(n) => ColumnaVista { nombre: c.nombre, valores: ValoresVista::Texto(textos_enteros(n)) },
        ValoresVista::Decimal(v) => match conversion_decimal_texto(v) {
            Ok(t) => ColumnaVista { nombre: c.nombre, valores: ValoresVista::Texto(t) },
            Err(_) => c,
        },
    }
}

/// A column converted towards a kind.
pub open spec fn como_tipo(c: ColumnaVista, tipo: TipoColumna) -> ColumnaVista {
    match tipo {
        TipoColumna::Fecha => como_fecha(c),
        TipoColumna::Numero => como_numero(c),
        TipoColumna::Coordenada => como_coordenada(c),
        TipoColumna::Texto => como_texto(c),
    }
}

/// Every column of a data set converted towards a kind.
pub open spec fn tabla_como_tipo(t: TablaVista, tipo: TipoColumna) -> TablaVista {
    TablaVista { filas: t.filas, columnas: t.columnas.map_values(|c: ColumnaVista| como_tipo(c, tipo)) }
}

/// What the search over the date formats finds keeps the number of empty
/// cells.
proof fn lema_fechas_desde(v: Seq<Option<Seq<char>>>, k: int)
    ensures
        fechas_desde(v, k) matches Some(d) ==> nulos(d) == nulos(v),
    decreases NUM_FORMATOS - k,
{
    if 0 <= k < NUM_FORMATOS {
        lema_fechas_desde(v, k + 1);
    }
}

/// A text column that becomes a date column keeps its number of empty
/// cells: no value is lost to the conversion.
pub proof fn ley_fechas_sin_perdida(c: ColumnaVista)
    ensures
        c.valores matches ValoresVista::Texto(v) ==> (como_fecha(c).valores matches ValoresVista::Fecha(d)
            ==> nulos(d) == nulos(v)),
        como_fecha(c).nombre == c.nombre,
{
    if let ValoresVista::Texto(v) = c.valores {
        lema_fechas_desde(v, 0);
        if nulos(v) != v.len() {
            if let Some(d) = fechas_desde(v, 0) {
                assert(como_fecha(c).valores == ValoresVista::Fecha(d));
                assert(nulos(d) == nulos(v));
            }
        }
    }
}

/// A text column holding a code with leading zeros stays a text column
/// when numbers are recognised.
pub proof fn ley_ceros_iniciales(c: ColumnaVista)
    requires
        c.valores matches ValoresVista::Texto(v) && algun_cero_inicial(v),
    ensures
        como_numero(c) == c,
{
}

/// A text column with a cell that, trimmed, is a `0` followed by one or
/// more ASCII digits (a code such as `01`) stays as it is when numbers are
/// recognised.
pub proof fn ley_codigo_bloquea_numero(nombre: Seq<char>, v: Seq<Option<Seq<char>>>, i: int, s: Seq<char>, d: Seq<char>)
    requires
        0 <= i < v.len(),
        v[i] == Some(s),
        crate::texto::recortado(s) == seq!['0'] + d,
        d.len() >= 1,
        forall|k: int| 0 <= k < d.len() ==> '0' <= #[trigger] d[k] <= '9',
    ensures
        como_numero(ColumnaVista { nombre, valores: ValoresVista::Texto(v) }) == (ColumnaVista {
            nombre,
            valores: ValoresVista::Texto(v),
        }),
{
    crate::texto::ley_codigo_con_ceros(s, d);
    assert(celda_con_ceros(v[i]));
}

/// Converting the columns of a data set keeps its number of rows and the
/// names and order of its columns.
pub proof fn ley_conversion_conserva_nombres(t: TablaVista, tipo: TipoColumna)
    ensures
        tabla_como_tipo(t, tipo).filas == t.filas,
        tabla_como_tipo(t, tipo).columnas.len() == t.columnas.len(),
        forall|i: int|
            0 <= i < t.columnas.len() ==> (#[trigger] tabla_como_tipo(t, tipo).columnas[i]).nombre
                == t.columnas[i].nombre,
{
}

/// The storage type of a column depends only on the kind of its cells,
/// whatever their number: text cells are stored as strings, dates as
/// dates, integers as 64-bit integers and decimals as 64-bit floats.
pub proof fn ley_tipo_por_clase(texto: Seq<Option<Seq<char>>>, fechas: Seq<Option<i32>>, enteros: Seq<Option<i64>>, decimales: Seq<Option<Seq<char>>>)
    ensures
        tipo_de_valores(ValoresVista::Texto(texto)) == TipoDato::Cadena,
        tipo_de_valores(ValoresVista::Fecha(fechas)) == TipoDato::Date,
        tipo_de_valores(ValoresVista::Entero(enteros)) == TipoDato::Int64,
        tipo_de_valores(ValoresVista::Decimal(decimales)) == TipoDato::Float64,
{
}

/// Counts the empty cells of a text column.
fn nulos_texto(v: &Vec<Option<String>>) -> (n: usize)
    ensures
        n == nulos(v.deep_view()),
{
    let mut n: usize = 0;
    let mut i: usize = 0;
    while i < v.len()
        invariant
            i <= v.len(),
            n == nulos(v.deep_view().take(i as int)),
            n <= i,
        decreases v.len() - i,
    {
        assert(v.deep_view().take(i + 1).drop_last() =~= v.deep_view().take(i as int));
        if v[i].is_none() {
            n = n + 1;
        }
        i = i + 1;
    }
    assert(v.deep_view().take(v.len() as int) =~= v.deep_view());
    n
}

/// Counts the empty cells of a date column.
fn nulos_fechas(v: &Vec<Option<i32>>) -> (n: usize)
    ensures
        n == nulos(v@),
{
    let mut n: usize = 0;
    let mut i: usize = 0;
    while i < v.len()
        invariant
            i <= v.len(),
            n == nulos(v@.take(i as int)),
            n <= i,
        decreases v.len() - i,
    {
        assert(v@.take(i + 1).drop_last() =~= v@.take(i as int));
        if v[i].is_none() {
            n = n + 1;
        }
        i = i + 1;
    }
    assert(v@.take(v.len() as int) =~= v@);
    n
}

/// The `k`-th date format.
fn formato(k: usize) -> (f: &'static str)
    requires
        k < NUM_FORMATOS,
    ensures
        f@ == formato_fecha(k as int),
{
    if k == 0 {
        "%Y-%m-%d"
    } else if k == 1 {
        "%d-%m-%Y"
    } else if k == 2 {
        "%Y/%m/%d"
    } else {
        "%d/%m/%Y"
    }
}

/// Tests whether some cell is a code with leading zeros.
fn hay_cero_inicial(v: &Vec<Option<String>>) -> (r: bool)
    ensures
        r == algun_cero_inicial(v.deep_view()),
{
    let mut i: usize = 0;
    while i < v.len()
        invariant
            i <= v.len(),
            forall|j: int| 0 <= j < i ==> !celda_con_ceros(#[trigger] v.deep_view()[j]),
        decreases v.len() - i,
    {
        if let Some(s) = &v[i] {
            if tiene_cero_inicial(s.as_str()) {
                assert(celda_con_ceros(v.deep_view()[i as int]));
                return true;
            }
        }
        i = i + 1;
    }
    false
}

/// Tests whether some cell holds a decimal point.
fn hay_decimal(v: &Vec<Option<String>>) -> (r: bool)
    ensures
        r == algun_decimal(v.deep_view()),
{
    let mut i: usize = 0;
    while i < v.len()
        invariant
            i <= v.len(),
            forall|j: int| 0 <= j < i ==> !celda_con_punto(#[trigger] v.deep_view()[j]),
        decreases v.len() - i,
    {
        if let Some(s) = &v[i] {
            if tiene_punto_decimal(s.as_str()) {
                assert(celda_con_punto(v.deep_view()[i as int]));
                return true;
            }
        }
        i = i + 1;
    }
    false
}

/// Converts a column towards dates.
#[verifier::loop_isolation(false)]
pub fn castear_fecha(c: Columna) -> (r: Columna)
    ensures
        r@ == como_fecha(c@),
        r@.valores.len() == c@.valores.len(),
{
    let ghost c0 = c@;
    let nombre = c.nombre;
    match c.valores {
        Valores::Texto(v) => {
            let nulos_originales = nulos_texto(&v);
            assert(v.deep_view().len() == v@.len());
            if nulos_originales == v.len() {
                return Columna { nombre, valores: Valores::Texto(v) };
            }
            let mut k: usize = 0;
            while k < NUM_FORMATOS
                invariant
                    k <= NUM_FORMATOS,
                    nulos_originales == nulos(v.deep_view()),
                    nulos_originales != v.deep_view().len(),
                    v.deep_view().len() == v@.len(),
                    c0 == (ColumnaVista { nombre: nombre@, valores: ValoresVista::Texto(v.deep_view()) }),
                    fechas_desde(v.deep_view(), 0) == fechas_desde(v.deep_view(), k as int),
                decreases NUM_FORMATOS - k,
            {
                match crate::lectura::a_fecha(&v, formato(k)) {
                    Ok(d) => {
                        if nulos_fechas(&d) == nulos_originales {
                            return Columna { nombre, valores: Valores::Fecha(d) };
                        }
                    },
                    Err(_) => {},
                }
                k = k + 1;
            }
            Columna { nombre, valores: Valores::Texto(v) }
        },
        otros => Columna { nombre, valores: otros },
    }
}

/// Converts a column towards numbers.
pub fn castear_numero(c: Columna) -> (r: Columna)
    ensures
        r@ == como_numero(c@),
        r@.valores.len() == c@.valores.len(),
{
    let nombre = c.nombre;
    match c.valores {
        Valores::Texto(v) => {
            if hay_cero_inicial(&v) {
                Columna { nombre, valores: Valores::Texto(v) }
            } else if hay_decimal(&v) {
                match crate::lectura::a_decimal(&v) {
                    Ok(_) => Columna { nombre, valores: Valores::Decimal(v) },
                    Err(_) => Columna { nombre, valores: Valores::Texto(v) },
                }
            } else {
                match crate::lectura::a_entero(&v) {
                    Ok(n) => Columna { nombre, valores: Valores::Entero(n) },
                    Err(_) => Columna { nombre, valores: Valores::Texto(v) },
                }
            }
        },
        Valores::Decimal(v) => match crate::lectura::decimal_a_entero(&v) {
            Ok(n) => Columna { nombre, valores: Valores::Entero(n) },
            Err(_) => Columna { nombre, valores: Valores::Decimal(v) },
        },
        otros => Columna { nombre, valores: otros },
    }
}

/// Converts a column towards coordinates.
pub fn castear_coordenada(c: Columna) -> (r: Columna)
    ensures
        r@ == como_coordenada(c@),
        r@.valores.len() == c@.valores.len(),
{
    let nombre = c.nombre;
    match c.valores {
        Valores::Texto(v) => match crate::lectura::a_decimal(&v) {
            Ok(_) => Columna { nombre, valores: Valores::Decimal(v) },
            Err(_) => Columna { nombre, valores: Valores::Texto(v) },
        },
        Valores::Entero(n) => match crate::lectura::entero_a_decimal(&n) {
            Ok(t) => Columna { nombre, valores: Valores::Decimal(t) },
            Err(_) => Columna { nombre, valores: Valores::Entero(n) },
        },
        Valores::Fecha(d) => match crate::lectura::fecha_a_decimal(&d) {
            Ok(t) => Columna { nombre, valores: Valores::Decimal(t) },
            Err(_) => Columna { nombre, valores: Valores::Fecha(d) },
        },
        Valores::Decimal(v) => Columna { nombre, valores: Valores::Decimal(v) },
    }
}

/// Converts a column towards text.
pub fn castear_texto(c: Columna) -> (r: Columna)
    ensures
        r@ == como_texto(c@),
        r@.valores.len() == c@.valores.len(),
{
    let nombre = c.nombre;
    match c.valores {
        Valores::Texto(v) => Columna { nombre, valores: Valores::Texto(v) },
        Valores::Fecha(d) => match crate::lectura::fecha_a_texto(&d) {
            Ok(t) => Columna { nombre, valores: Valores::Texto(t) },
            Err(_) => Columna { nombre, valores: Valores::Fecha(d) },
        },
        Valores::Entero(n) => match crate::lectura::entero_a_texto(&n) {
            Ok(t) => Columna { nombre, valores: Valores::Texto(t) },
            Err(_) => Columna { nombre, valores: Valores::Entero(n) },
        },
        Valores::Decimal(v) => match crate::lectura::decimal_a_texto(&v) {
            Ok(t) => Columna { nombre, valores: Valores::Texto(t) },
            Err(_) => Columna { nombre, valores: Valores::Decimal(v) },
        },
    }
}

/// Converts a column towards a kind.
pub fn castear_columna(c: Columna, tipo: TipoColumna) -> (r: Columna)
    ensures
        r@ == como_tipo(c@, tipo),
        r@.valores.len() == c@.valores.len(),
{
    match tipo {
        TipoColumna::Fecha => castear_fecha(c),
        TipoColumna::Numero => castear_numero(c),
        TipoColumna::Coordenada => castear_coordenada(c),
        TipoColumna::Texto => castear_texto(c),
    }
}

/// Converts every column of a data set towards a kind.
pub fn castear_frame(t: Tabla, tipo: TipoColumna) -> (r: Tabla)
    requires
        t@.bien_formada(),
    ensures
        r@ == tabla_como_tipo(t@, tipo),
        r@.bien_formada(),
{
    let ghost original = t@;
    let filas = t.filas;
    let mut pendientes = t.columnas;
    let mut hechas: Vec<Columna> = Vec::new();
    let ghost n = pendientes@.len();
    while pendientes.len() > 0
        invariant
            original.filas == filas,
            n == original.columnas.len(),
            hechas@.len() + pendientes@.len() == n,
            original.bien_formada(),
            forall|i: int| 0 <= i < hechas@.len() ==> (#[trigger] hechas@[i])@ == como_tipo(original.columnas[i], tipo),
            forall|i: int| 0 <= i < hechas@.len() ==> (#[trigger] hechas@[i])@.valores.len() == filas,
            forall|i: int| 0 <= i < pendientes@.len() ==> (#[trigger] pendientes@[i])@ == original.columnas[hechas@.len() + i],
        decreases pendientes@.len(),
    {
        let c = pendientes.remove(0);
        assert(c@ == original.columnas[hechas@.len() as int]);
        let convertida = castear_columna(c, tipo);
        hechas.push(convertida);
        assert forall|i: int| 0 <= i < pendientes@.len() implies (#[trigger] pendientes@[i])@ == original.columnas[hechas@.len() + i] by {
        }
    }
    let r = Tabla { filas, columnas: hechas };
    assert(r@.columnas =~= tabla_como_tipo(original, tipo).columnas);
    r
}

} // verus!
