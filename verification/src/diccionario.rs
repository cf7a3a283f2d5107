//! Reading of a data dictionary file: a CSV file whose first four columns
//! give, for each column of a data set, its name, type, label and
//! description.
use vstd::prelude::*;
use vstd::utf8::encode_utf8;
use crate::codificacion::{contenido_decodificado, decodificar_contenido};
use crate::lectura::{lectura_csv, leer_csv, tabla_leida_bien_formada, ColumnaLeida, OpcionesCsv, TablaCsv, TablaLeida};

verus! {

/// One entry of a data dictionary.
pub struct DiccionarioFila {
    pub columna: Option<String>,
    pub tipo: Option<String>,
    pub etiqueta: Option<String>,
    pub descripcion: Option<String>,
}

/// Model of an entry of a data dictionary.
pub struct FilaVista {
    pub columna: Option<Seq<char>>,
    pub tipo: Option<Seq<char>>,
    pub etiqueta: Option<Seq<char>>,
    pub descripcion: Option<Seq<char>>,
}

impl View for DiccionarioFila {
    type V = FilaVista;

    open spec fn view(&self) -> FilaVista {
        FilaVista {
            columna: self.columna.deep_view(),
            tipo: self.tipo.deep_view(),
            etiqueta: self.etiqueta.deep_view(),
            descripcion: self.descripcion.deep_view(),
        }
    }
}

/// The first four columns checked in order from the `k`-th: `None` when a
/// column is missing before any failure, `Some(Some(e))` for the message of
/// the first column that is not text, `Some(None)` when all four are text.
pub open spec fn revision(t: TablaLeida, k: int) -> Option<Option<Seq<char>>>
    decreases 4 - k,
{
    if k >= 4 || k < 0 {
        Some(None)
    } else if k >= t.columnas.len() {
        None
    } else {
        match t.columnas[k].valores {
            Err(e) => Some(Some(e)),
            Ok(_) => revision(t, k + 1),
        }
    }
}

/// Cells of a column read as text.
pub open spec fn celdas(c: ColumnaLeida) -> Seq<Option<Seq<char>>> {
    match c.valores {
        Ok(v) => v,
        Err(_) => Seq::empty(),
    }
}

/// The entries of a dictionary, one per row.
pub open spec fn filas_de(t: TablaLeida) -> Seq<FilaVista> {
    Seq::new(
        t.filas,
        |i: int|
            FilaVista {
                columna: celdas(t.columnas[0])[i],
                tipo: celdas(t.columnas[1])[i],
                etiqueta: celdas(t.columnas[2])[i],
                descripcion: celdas(t.columnas[3])[i],
            },
    )
}

/// The dictionary taken from a reading: `None` when it has too few columns,
/// otherwise its entries or the message of the first column of the four
/// that was not read as text.
pub open spec fn diccionario_de(t: TablaLeida) -> Option<Result<Seq<FilaVista>, Seq<char>>> {
    match revision(t, 0) {
        None => None,
        Some(Some(e)) => Some(Err(e)),
        Some(None) => Some(Ok(filas_de(t))),
    }
}

/// The reading of a dictionary file: its decoded text read as CSV, with the
/// types inferred from the first hundred rows.
pub open spec fn lectura_diccionario(b: Seq<u8>) -> TablaLeida {
    lectura_csv(encode_utf8(contenido_decodificado(b)), None, Some(100), None)
}

/// Field `k` of an entry: its column name, type, label and description, in
/// the order of the file's first four columns.
pub open spec fn campo(f: FilaVista, k: int) -> Option<Seq<char>> {
    if k == 0 {
        f.columna
    } else if k == 1 {
        f.tipo
    } else if k == 2 {
        f.etiqueta
    } else {
        f.descripcion
    }
}

proof fn lema_revision_completa(t: TablaLeida, k: int)
    requires
        0 <= k <= 4,
        t.columnas.len() >= 4,
        forall|m: int| 0 <= m < 4 ==> (#[trigger] t.columnas[m]).valores is Ok,
    ensures
        revision(t, k) == Some(None::<Seq<char>>),
    decreases 4 - k,
{
    if k < 4 {
        lema_revision_completa(t, k + 1);
    }
}

/// A dictionary whose first four columns were read as text has exactly one
/// entry per data row, and field `k` of entry `i` is the cell of row `i` in
/// column `k`.
pub proof fn ley_una_entrada_por_fila(t: TablaLeida)
    requires
        tabla_leida_bien_formada(t),
        t.columnas.len() >= 4,
        forall|m: int| 0 <= m < 4 ==> (#[trigger] t.columnas[m]).valores is Ok,
    ensures
        diccionario_de(t) matches Some(Ok(f)) && f.len() == t.filas && forall|i: int, k: int|
            0 <= i < t.filas && 0 <= k < 4 ==> (t.columnas[k].valores matches Ok(v) && #[trigger] campo(f[i], k)
                == v[i]),
{
    lema_revision_completa(t, 0);
    let f = filas_de(t);
    assert forall|i: int, k: int| 0 <= i < t.filas && 0 <= k < 4 implies (t.columnas[k].valores matches Ok(v)
        && #[trigger] campo(f[i], k) == v[i]) by {
        assert(t.columnas[k].valores is Ok);
    }
}

/// Copies a cell.
fn copiar_celda(c: &Option<String>) -> (r: Option<String>)
    ensures
        r.deep_view() == c.deep_view(),
{
    match c {
        Some(s) => Some(s.clone()),
        None => None,
    }
}

/// The entries of a dictionary whose first four columns were read as text.
pub fn filas_diccionario(t: &TablaCsv) -> (r: Vec<DiccionarioFila>)
    requires
        t.columnas@.len() >= 4,
        forall|k: int| 0 <= k < 4 ==> (#[trigger] t.columnas@[k]).valores is Ok,
        tabla_leida_bien_formada(t@),
    ensures
        r@.map_values(|f: DiccionarioFila| f@) == filas_de(t@),
{
    let columnas = match &t.columnas[0].valores {
        Ok(v) => v,
        Err(_) => {
            assert(false);
            return Vec::new();
        },
    };
    let tipos = match &t.columnas[1].valores {
        Ok(v) => v,
        Err(_) => {
            assert(false);
            return Vec::new();
        },
    };
    let etiquetas = match &t.columnas[2].valores {
        Ok(v) => v,
        Err(_) => {
            assert(false);
            return Vec::new();
        },
    };
    let descripciones = match &t.columnas[3].valores {
        Ok(v) => v,
        Err(_) => {
            assert(false);
            return Vec::new();
        },
    };
    assert(t@.columnas[0] == t.columnas@[0]@);
    assert(t@.columnas[1] == t.columnas@[1]@);
    assert(t@.columnas[2] == t.columnas@[2]@);
    assert(t@.columnas[3] == t.columnas@[3]@);
    let mut r: Vec<DiccionarioFila> = Vec::new();
    let mut i: usize = 0;
    while i < t.filas
        invariant
            i <= t.filas,
            columnas.deep_view() == celdas(t@.columnas[0]),
            tipos.deep_view() == celdas(t@.columnas[1]),
            etiquetas.deep_view() == celdas(t@.columnas[2]),
            descripciones.deep_view() == celdas(t@.columnas[3]),
            columnas@.len() == t.filas,
            tipos@.len() == t.filas,
            etiquetas@.len() == t.filas,
            descripciones@.len() == t.filas,
            r@.len() == i,
            forall|j: int| 0 <= j < i ==> (#[trigger] r@[j])@ == filas_de(t@)[j],
        decreases t.filas - i,
    {
        let fila = DiccionarioFila {
            columna: copiar_celda(&columnas[i]),
            tipo: copiar_celda(&tipos[i]),
            etiqueta: copiar_celda(&etiquetas[i]),
            descripcion: copiar_celda(&descripciones[i]),
        };
        r.push(fila);
        i = i + 1;
    }
    assert(r@.map_values(|f: DiccionarioFila| f@) =~= filas_de(t@));
    r
}

/// Takes a data dictionary from a reading of its file; `None` when the file
/// has fewer columns than the first four that it needs.
#[verifier::loop_isolation(false)]
pub fn diccionario_desde_lectura(t: &TablaCsv) -> (r: Option<Result<Vec<DiccionarioFila>, String>>)
    requires
        tabla_leida_bien_formada(t@),
    ensures
        r is None <==> diccionario_de(t@) is None,
        r matches Some(Ok(filas)) ==> diccionario_de(t@) == Some(
            Ok::<Seq<FilaVista>, Seq<char>>(filas@.map_values(|f: DiccionarioFila| f@)),
        ),
        r matches Some(Err(e)) ==> diccionario_de(t@) == Some(Err::<Seq<FilaVista>, Seq<char>>(e@)),
{
    let mut k: usize = 0;
    while k < 4
        invariant
            k <= 4,
            revision(t@, 0) == revision(t@, k as int),
            forall|j: int| 0 <= j < k ==> (#[trigger] t.columnas@[j]).valores is Ok,
            k <= t.columnas@.len(),
        decreases 4 - k,
    {
        if k >= t.columnas.len() {
            return None;
        }
        assert(t@.columnas[k as int] == t.columnas@[k as int]@);
        match &t.columnas[k].valores {
            Ok(_) => {},
            Err(e) => return Some(Err(e.clone())),
        }
        k = k + 1;
    }
    Some(Ok(filas_diccionario(t)))
}

/// Reads a data dictionary from the bytes of a file: the bytes are decoded
/// to text, the text is read as CSV, and the dictionary is taken from the
/// reading; `None` when the file has fewer columns than the first four that
/// it needs.
pub fn leer_diccionario(bytes: &[u8]) -> (r: Option<Result<Vec<DiccionarioFila>, String>>)
    ensures
        r is None ==> diccionario_de(lectura_diccionario(bytes@)) is None,
        r matches Some(Ok(filas)) ==> diccionario_de(lectura_diccionario(bytes@)) == Some(
            Ok::<Seq<FilaVista>, Seq<char>>(filas@.map_values(|f: DiccionarioFila| f@)),
        ),
{
    let texto = decodificar_contenido(bytes);
    let opciones = OpcionesCsv { filas: None, inferencia: Some(100), columnas_texto: None };
    let t = match leer_csv(texto.as_str().as_bytes(), &opciones) {
        Ok(t) => t,
        Err(e) => return Some(Err(e)),
    };
    diccionario_desde_lectura(&t)
}

} // verus!
