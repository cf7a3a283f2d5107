//! Loading of a data set from the bytes of a CSV file: every column is read
//! as text, then classified; and the report on the loaded data set.
use vstd::prelude::*;
use crate::lectura::{conversion_decimal_entera, lectura_csv, leer_csv, tabla_leida_bien_formada, ColumnaLeida, OpcionesCsv, TablaCsv, TablaLeida};
use crate::tabla::{
    castear_frame, como_fecha, como_numero, tabla_como_tipo, tipo_de_valores, Columna,
    ColumnaVista, Tabla, TablaVista, Valores, ValoresVista,
};
use crate::tipos::{tipo_de_columna, TipoColumna};

verus! {

/// Message of the first column that was not read as text.
pub open spec fn primer_error(cs: Seq<ColumnaLeida>) -> Option<Seq<char>>
    decreases cs.len(),
{
    if cs.len() == 0 {
        None
    } else {
        match cs[0].valores {
            Err(e) => Some(e),
            Ok(_) => primer_error(cs.drop_first()),
        }
    }
}

/// The columns as read, all of them text columns.
pub open spec fn tabla_de_texto(t: TablaLeida) -> TablaVista {
    TablaVista {
        filas: t.filas,
        columnas: t.columnas.map_values(
            |c: ColumnaLeida|
                ColumnaVista {
                    nombre: c.nombre,
                    valores: ValoresVista::Texto(
                        match c.valores {
                            Ok(v) => v,
                            Err(_) => Seq::empty(),
                        },
                    ),
                },
        ),
    }
}

/// A data set with its dates recognised first and its numbers second.
pub open spec fn clasificada(t: TablaVista) -> TablaVista {
    tabla_como_tipo(tabla_como_tipo(t, TipoColumna::Fecha), TipoColumna::Numero)
}

/// Number of columns in the header of a CSV file, as a reading of the
/// header alone gives it.
pub open spec fn ancho_encabezado(b: Seq<u8>) -> nat {
    lectura_csv(b, Some(0), Some(0), None).columnas.len()
}

/// The reading of a CSV file with every column of its header as text and
/// the types inferred from the first hundred rows.
pub open spec fn lectura_de_datos(b: Seq<u8>) -> TablaLeida {
    lectura_csv(b, None, Some(100), Some(ancho_encabezado(b) as usize))
}

/// The message of a failed reading of the header.
pub open spec fn mensaje_encabezado(e: Seq<char>) -> Seq<char> {
    "Error al mapear columnas: "@ + e
}

/// The read columns as text columns, or the message of the first one that
/// was not read as text.
#[verifier::loop_isolation(false)]
fn columnas_de_texto(t: TablaCsv) -> (r: Result<Tabla, String>)
    requires
        tabla_leida_bien_formada(t@),
    ensures
        r matches Ok(s) ==> primer_error(t@.columnas) is None && s@ == tabla_de_texto(t@)
            && s@.bien_formada(),
        r matches Err(e) ==> primer_error(t@.columnas) == Some(e@),
{
    let ghost original = t@;
    let filas = t.filas;
    let mut pendientes = t.columnas;
    let mut hechas: Vec<Columna> = Vec::new();
    let ghost n = original.columnas.len();
    assert(original.columnas.skip(0) =~= original.columnas);
    while pendientes.len() > 0
        invariant
            original.filas == filas,
            n == original.columnas.len(),
            hechas@.len() + pendientes@.len() == n,
            tabla_leida_bien_formada(original),
            primer_error(original.columnas) == primer_error(original.columnas.skip(hechas@.len() as int)),
            forall|i: int| 0 <= i < hechas@.len() ==> (#[trigger] hechas@[i])@ == tabla_de_texto(original).columnas[i],
            forall|i: int| 0 <= i < hechas@.len() ==> (#[trigger] hechas@[i])@.valores.len() == filas,
            forall|i: int| 0 <= i < pendientes@.len() ==> (#[trigger] pendientes@[i])@ == original.columnas[hechas@.len() + i],
        decreases pendientes@.len(),
    {
        let ghost k = hechas@.len() as int;
        let c = pendientes.remove(0);
        assert(c@ == original.columnas[k]);
        assert(original.columnas.skip(k).drop_first() =~= original.columnas.skip(k + 1));
        match c.valores {
            Ok(v) => {
                hechas.push(Columna { nombre: c.nombre, valores: Valores::Texto(v) });
            },
            Err(e) => {
                return Err(e);
            },
        }
        assert forall|i: int| 0 <= i < pendientes@.len() implies (#[trigger] pendientes@[i])@ == original.columnas[hechas@.len() + i] by {
        }
    }
    let s = Tabla { filas, columnas: hechas };
    assert(s@.columnas =~= tabla_de_texto(original).columnas);
    Ok(s)
}

/// Loads a data set from a reading of a CSV file: every column must have
/// been read as text; the dates are recognised first, the numbers second.
pub fn base_desde_lectura(t: TablaCsv) -> (r: Result<Tabla, String>)
    requires
        tabla_leida_bien_formada(t@),
    ensures
        r is Ok <==> primer_error(t@.columnas) is None,
        r matches Ok(s) ==> s@ == clasificada(tabla_de_texto(t@)) && s@.bien_formada(),
        r matches Err(e) ==> primer_error(t@.columnas) == Some(e@),
{
    let texto = columnas_de_texto(t)?;
    let fechas = castear_frame(texto, TipoColumna::Fecha);
    Ok(castear_frame(fechas, TipoColumna::Numero))
}

/// The number of columns that a reading of the header gives, or the
/// message of its failure.
pub fn ancho_de_encabezado(encabezado: &Result<TablaCsv, String>) -> (r: Result<usize, String>)
    ensures
        r is Ok <==> encabezado is Ok,
        r matches Ok(n) ==> (encabezado matches Ok(h) && n == h.columnas@.len()),
        r matches Err(e) ==> (encabezado matches Err(m) && e@ == mensaje_encabezado(m@)),
{
    match encabezado {
        Ok(h) => Ok(h.columnas.len()),
        Err(e) => {
            let mut m = String::from_str("Error al mapear columnas: ");
            m.append(e.as_str());
            Err(m)
        },
    }
}

/// Loads a data set from the bytes of a CSV file with a header row: a first
/// reading of the header gives the number of columns, a second one reads
/// them all as text, and the result is classified.
pub fn leer_base(bytes: &[u8]) -> (r: Result<Tabla, String>)
    ensures
        r matches Ok(t) ==> primer_error(lectura_de_datos(bytes@).columnas) is None && t@ == clasificada(
            tabla_de_texto(lectura_de_datos(bytes@)),
        ) && t@.bien_formada(),
{
    let encabezado = leer_csv(bytes, &OpcionesCsv { filas: Some(0), inferencia: Some(0), columnas_texto: None });
    let ancho = ancho_de_encabezado(&encabezado)?;
    let datos = leer_csv(bytes, &OpcionesCsv { filas: None, inferencia: Some(100), columnas_texto: Some(ancho) })?;
    base_desde_lectura(datos)
}

/// Report on a loaded data set: number of rows, column names, and the kind
/// of each column.
pub struct Reporte {
    pub total_filas: usize,
    pub columnas: Vec<String>,
    pub esquema: Vec<(String, TipoColumna)>,
}

/// Builds the report on a data set.
pub fn reporte(t: &Tabla) -> (r: Reporte)
    ensures
        r.total_filas == t.filas,
        r.columnas.deep_view() == t@.columnas.map_values(|c: ColumnaVista| c.nombre),
        r.esquema@.len() == t@.columnas.len(),
        forall|i: int|
            0 <= i < r.esquema@.len() ==> (#[trigger] r.esquema@[i]).0@ == t@.columnas[i].nombre
                && r.esquema@[i].1 == tipo_de_columna(tipo_de_valores(t@.columnas[i].valores), false),
{
    let mut columnas: Vec<String> = Vec::new();
    let mut esquema: Vec<(String, TipoColumna)> = Vec::new();
    let mut i: usize = 0;
    while i < t.columnas.len()
        invariant
            i <= t.columnas@.len(),
            columnas@.len() == i,
            esquema@.len() == i,
            forall|j: int| 0 <= j < i ==> (#[trigger] columnas@[j])@ == t@.columnas[j].nombre,
            forall|j: int|
                0 <= j < i ==> (#[trigger] esquema@[j]).0@ == t@.columnas[j].nombre && esquema@[j].1
                    == tipo_de_columna(tipo_de_valores(t@.columnas[j].valores), false),
        decreases t.columnas@.len() - i,
    {
        let c = &t.columnas[i];
        let dt = c.tipo_dato();
        let tipo = TipoColumna::from_polartype(&dt, false);
        esquema.push((c.nombre.clone(), tipo));
        columnas.push(c.nombre.clone());
        i = i + 1;
    }
    assert(columnas.deep_view() =~= t@.columnas.map_values(|c: ColumnaVista| c.nombre));
    Reporte { total_filas: t.filas, columnas, esquema }
}

/// The report gives each column the kind of its cells, whatever their
/// number: integer and decimal columns are numbers, date columns dates and
/// text columns text.
pub proof fn ley_reporte_por_clase(c: ColumnaVista)
    ensures
        c.valores is Entero ==> tipo_de_columna(tipo_de_valores(c.valores), false) == TipoColumna::Numero,
        c.valores is Decimal ==> tipo_de_columna(tipo_de_valores(c.valores), false) == TipoColumna::Numero,
        c.valores is Fecha ==> tipo_de_columna(tipo_de_valores(c.valores), false) == TipoColumna::Fecha,
        c.valores is Texto ==> tipo_de_columna(tipo_de_valores(c.valores), false) == TipoColumna::Texto,
{
}

/// Classifying a classified data set again changes nothing, unless it has
/// a decimal column whose numbers `polars` casts to integers: a second
/// recognition of numbers turns such a column into integers.
pub proof fn ley_clasificacion_estable(t: TablaVista)
    requires
        forall|i: int|
            0 <= i < clasificada(t).columnas.len() ==> ((#[trigger] clasificada(t).columnas[i]).valores matches ValoresVista::Decimal(
                v,
            ) ==> conversion_decimal_entera(v) is Err),
    ensures
        clasificada(clasificada(t)) == clasificada(t),
{
    let c1 = clasificada(t);
    assert forall|i: int| 0 <= i < t.columnas.len() implies #[trigger] clasificada(c1).columnas[i] == c1.columnas[i] by {
        let c = t.columnas[i];
        let f = como_fecha(c);
        let g = como_numero(f);
        assert(c1.columnas[i] == g);
        if g.valores is Texto {
            assert(f == c);
            assert(g == f);
        }
    }
    assert(clasificada(c1).columnas =~= c1.columnas);
}

} // verus!
