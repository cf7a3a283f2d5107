//! Reading of CSV files and casts of columns, both done by `polars`; the
//! library sees their results as plain values. A column of decimal numbers
//! is held as text that converts to them: after a cast towards decimals,
//! the text that `polars` writes for the resulting numbers.
use vstd::prelude::*;
use polars::prelude::{Column, CsvReadOptions, CsvReader, DataType, SerReader, StringMethods};
use std::io::Cursor;
use std::sync::Arc;

verus! {

/// Options of a CSV reading; the file always has a header row.
#[derive(Clone, Copy, Debug, PartialEq, Eq, Structural)]
pub struct OpcionesCsv {
    /// Largest number of data rows to read (all when `None`).
    pub filas: Option<usize>,
    /// Number of rows from which column types are inferred (all when
    /// `None`).
    pub inferencia: Option<usize>,
    /// When `Some(n)`, the first `n` columns are read as text.
    pub columnas_texto: Option<usize>,
}

/// A column as read: its name, and its cells when it was read as text, or
/// the message that refuses to give it as text.
pub struct ColumnaCsv {
    pub nombre: String,
    pub valores: Result<Vec<Option<String>>, String>,
}

/// A CSV file as read: its number of rows and its columns in file order.
pub struct TablaCsv {
    pub filas: usize,
    pub columnas: Vec<ColumnaCsv>,
}

/// Model of a column as read.
pub struct ColumnaLeida {
    pub nombre: Seq<char>,
    pub valores: Result<Seq<Option<Seq<char>>>, Seq<char>>,
}

/// Model of a CSV file as read.
pub struct TablaLeida {
    pub filas: nat,
    pub columnas: Seq<ColumnaLeida>,
}

impl View for ColumnaCsv {
    type V = ColumnaLeida;

    open spec fn view(&self) -> ColumnaLeida {
        ColumnaLeida {
            nombre: self.nombre@,
            valores: match self.valores {
                Ok(v) => Ok(v.deep_view()),
                Err(e) => Err(e@),
            },
        }
    }
}

impl View for TablaCsv {
    type V = TablaLeida;

    open spec fn view(&self) -> TablaLeida {
        TablaLeida { filas: self.filas as nat, columnas: self.columnas@.map_values(|c: ColumnaCsv| c@) }
    }
}

/// Every column read as text has one cell per row.
pub open spec fn tabla_leida_bien_formada(t: TablaLeida) -> bool {
    forall|i: int|
        0 <= i < t.columnas.len() ==> ((#[trigger] t.columnas[i]).valores matches Ok(v) ==> v.len()
            == t.filas)
}

/// Cells that `polars` gives when it parses a text column as dates with
/// the `strptime` format, matching whole cells (`StringMethods::as_date`),
/// as days since 1970-01-01 (a cell that does not parse becomes empty), or
/// its error message.
pub uninterp spec fn conversion_fecha(valores: Seq<Option<Seq<char>>>, formato: Seq<char>) -> Result<Seq<Option<i32>>, Seq<char>>;

/// Cells that `polars` gives when it casts a text column to 64-bit integers
/// with a strict cast, or its error message.
pub uninterp spec fn conversion_entera(valores: Seq<Option<Seq<char>>>) -> Result<Seq<Option<i64>>, Seq<char>>;

/// Whether `polars` can cast a text column to 64-bit floating point numbers
/// with a strict cast, or its error message.
pub uninterp spec fn conversion_decimal(valores: Seq<Option<Seq<char>>>) -> Result<(), Seq<char>>;

/// Cells that `polars` gives when it casts text cells to 64-bit floating
/// point numbers and then to 64-bit integers, both with a strict cast, or
/// its error message.
pub uninterp spec fn conversion_decimal_entera(valores: Seq<Option<Seq<char>>>) -> Result<Seq<Option<i64>>, Seq<char>>;

/// Text that `polars` writes for the numbers it gets when it casts 64-bit
/// integers to 64-bit floating point numbers with a strict cast, or its
/// error message.
pub uninterp spec fn conversion_entera_decimal(valores: Seq<Option<i64>>) -> Result<Seq<Option<Seq<char>>>, Seq<char>>;

/// Text that `polars` writes for the numbers it gets when it casts dates,
/// given as days since 1970-01-01, to 64-bit floating point numbers with a
/// strict cast, or its error message.
pub uninterp spec fn conversion_fecha_decimal(valores: Seq<Option<i32>>) -> Result<Seq<Option<Seq<char>>>, Seq<char>>;

/// Text that `polars` gives when it casts dates, given as days since
/// 1970-01-01, to text with a strict cast, or its error message.
pub uninterp spec fn conversion_fecha_texto(valores: Seq<Option<i32>>) -> Result<Seq<Option<Seq<char>>>, Seq<char>>;

/// The character of a decimal digit.
pub open spec fn digito(d: nat) -> char {
    (d + 48) as char
}

/// The decimal digits of a natural number, most significant first.
pub open spec fn digitos(n: nat) -> Seq<char>
    decreases n,
{
    if n < 10 {
        seq![digito(n)]
    } else {
        digitos(n / 10).push(digito(n % 10))
    }
}

/// The decimal text of an integer, with a minus sign when it is negative.
pub open spec fn texto_entero(n: int) -> Seq<char> {
    if n < 0 {
        seq!['-'] + digitos((-n) as nat)
    } else {
        digitos(n as nat)
    }
}

/// Integer cells written as decimal text.
pub open spec fn textos_enteros(v: Seq<Option<i64>>) -> Seq<Option<Seq<char>>> {
    v.map_values(
        |o: Option<i64>|
            match o {
                Some(n) => Some(texto_entero(n as int)),
                None => None,
            },
    )
}

/// What `polars` reads from the bytes of a CSV file with a header row when
/// the reading succeeds (`CsvReader::finish`), with at most `filas` data
/// rows, column types inferred from `inferencia` rows, and the first `texto`
/// columns read as text.
pub uninterp spec fn lectura_csv(bytes: Seq<u8>, filas: Option<usize>, inferencia: Option<usize>, texto: Option<usize>) -> TablaLeida;

/// Text that `polars` gives when it casts text cells to 64-bit floating
/// point numbers and those to text, both with a strict cast, or its error
/// message.
pub uninterp spec fn conversion_decimal_texto(valores: Seq<Option<Seq<char>>>) -> Result<Seq<Option<Seq<char>>>, Seq<char>>;

/// Reads a CSV file with `polars` (`CsvReader::new` with
/// `CsvReadOptions` built from the options on the defaults, which take the
/// first row as header, then `finish`), and gives each
/// column's name (`Column::name`) and, through `Column::str`, its cells or
/// the message that refuses them.
///
/// Claimed: a table that comes back is the named reading of the bytes with
/// the options (chunk boundaries are found in one sequential pass, so the
/// rows do not depend on how the chunks are shared out); all columns of a
/// data frame have its height; and the first `n` columns are text when the
/// options ask for it (`with_dtype_overwrite` overwrites the types in
/// order). Not claimed: whether the reading fails, nor its message. The
/// reader parses the chunks in parallel on a pool whose size depends on the
/// machine, so an error message (it names the chunk's offset) and, under a
/// row limit, whether a later chunk is parsed at all, depend on the machine
/// and on timing.
#[verifier::external_body]
pub(crate) fn leer_csv(bytes: &[u8], opciones: &OpcionesCsv) -> (r: Result<TablaCsv, String>)
    ensures
        r matches Ok(t) ==> t@ == lectura_csv(bytes@, opciones.filas, opciones.inferencia, opciones.columnas_texto),
        r matches Ok(t) ==> tabla_leida_bien_formada(t@),
        r matches Ok(t) ==> (opciones.columnas_texto matches Some(n) ==> forall|i: int|
            0 <= i < n && i < t.columnas@.len() ==> t.columnas@[i].valores is Ok),
{
    let tipos = opciones.columnas_texto.map(|n| Arc::new(vec![DataType::String; n]));
    let df = CsvReader::new(Cursor::new(bytes.to_vec())).with_options(
        CsvReadOptions::default().with_n_rows(opciones.filas)
            .with_infer_schema_length(opciones.inferencia).with_dtype_overwrite(tipos),
    ).finish().map_err(|e| e.to_string())?;
    let columnas = df.columns().iter().map(|c| ColumnaCsv {
        nombre: c.name().to_string(),
        valores: c.str().map(|s| s.iter().map(|v| v.map(String::from)).collect()).map_err(|e| e.to_string()),
    }).collect();
    Ok(TablaCsv { filas: df.height(), columnas })
}

/// Parses text cells as dates with `polars`: `Column::str`, then
/// `StringMethods::as_date` with the format and the cache allowed; gives the
/// days since 1970-01-01 of each cell.
///
/// Claimed: the result is the named conversion, with one cell per cell.
#[verifier::external_body]
pub(crate) fn a_fecha(valores: &Vec<Option<String>>, formato: &str) -> (r: Result<Vec<Option<i32>>, String>)
    ensures
        r matches Ok(v) ==> (conversion_fecha(valores.deep_view(), formato@) matches Ok(x) && x == v@),
        r matches Err(e) ==> (conversion_fecha(valores.deep_view(), formato@) matches Err(x) && x == e@),
        r matches Ok(v) ==> v@.len() == valores@.len(),
{
    let c = Column::new("v".into(), valores.as_slice());
    let fechas = c.str().map_err(|e| e.to_string())?.as_date(Some(formato), true).map_err(|e| e.to_string())?;
    Ok(fechas.physical().iter().collect())
}

/// Casts text cells to 64-bit integers with `Column::strict_cast`.
///
/// Claimed: the result is the named conversion, with one cell per cell.
#[verifier::external_body]
pub(crate) fn a_entero(valores: &Vec<Option<String>>) -> (r: Result<Vec<Option<i64>>, String>)
    ensures
        r matches Ok(v) ==> (conversion_entera(valores.deep_view()) matches Ok(x) && x == v@),
        r matches Err(e) ==> (conversion_entera(valores.deep_view()) matches Err(x) && x == e@),
        r matches Ok(v) ==> v@.len() == valores@.len(),
{
    let c = Column::new("v".into(), valores.as_slice()).strict_cast(&DataType::Int64).map_err(|e| e.to_string())?;
    Ok(c.i64().map_err(|e| e.to_string())?.iter().collect())
}

/// Casts text cells to 64-bit floating point numbers with
/// `Column::strict_cast`, keeping only whether it succeeds.
///
/// Claimed: the outcome is the named conversion.
#[verifier::external_body]
pub(crate) fn a_decimal(valores: &Vec<Option<String>>) -> (r: Result<(), String>)
    ensures
        r matches Ok(_) ==> conversion_decimal(valores.deep_view()) is Ok,
        r matches Err(e) ==> (conversion_decimal(valores.deep_view()) matches Err(m) && m == e@),
{
    Column::new("v".into(), valores.as_slice()).strict_cast(&DataType::Float64).map(|_| ()).map_err(|e| e.to_string())
}

/// Casts decimal cells, held as text, to 64-bit integers with `polars`:
/// `Column::strict_cast` to `Float64`, then to `Int64`.
///
/// Claimed: the result is the named conversion, with one cell per cell.
#[verifier::external_body]
pub(crate) fn decimal_a_entero(valores: &Vec<Option<String>>) -> (r: Result<Vec<Option<i64>>, String>)
    ensures
        r matches Ok(v) ==> (conversion_decimal_entera(valores.deep_view()) matches Ok(x) && x == v@),
        r matches Err(e) ==> (conversion_decimal_entera(valores.deep_view()) matches Err(x) && x == e@),
        r matches Ok(v) ==> v@.len() == valores@.len(),
{
    let c = Column::new("v".into(), valores.as_slice()).strict_cast(&DataType::Float64).map_err(|e| e.to_string())?;
    let c = c.strict_cast(&DataType::Int64).map_err(|e| e.to_string())?;
    Ok(c.i64().map_err(|e| e.to_string())?.iter().collect())
}

/// Casts 64-bit integers to decimals with `polars`: `Column::strict_cast`
/// to `Float64`, then `Column::cast` to `String` for the text of the
/// numbers.
///
/// Claimed: the result is the named conversion, with one cell per cell.
#[verifier::external_body]
pub(crate) fn entero_a_decimal(valores: &Vec<Option<i64>>) -> (r: Result<Vec<Option<String>>, String>)
    ensures
        r matches Ok(v) ==> (conversion_entera_decimal(valores@) matches Ok(x) && x == v.deep_view()),
        r matches Err(e) ==> (conversion_entera_decimal(valores@) matches Err(x) && x == e@),
        r matches Ok(v) ==> v@.len() == valores@.len(),
{
    let c = Column::new("v".into(), valores.as_slice()).strict_cast(&DataType::Float64).map_err(|e| e.to_string())?;
    let c = c.cast(&DataType::String).map_err(|e| e.to_string())?;
    Ok(c.str().map_err(|e| e.to_string())?.iter().map(|v| v.map(String::from)).collect())
}

/// Casts dates, given as days since 1970-01-01, to decimals with `polars`:
/// `Column::cast` of the days to `Date`, `Column::strict_cast` to `Float64`,
/// then `Column::cast` to `String` for the text of the numbers.
///
/// Claimed: the result is the named conversion, with one cell per cell.
#[verifier::external_body]
pub(crate) fn fecha_a_decimal(valores: &Vec<Option<i32>>) -> (r: Result<Vec<Option<String>>, String>)
    ensures
        r matches Ok(v) ==> (conversion_fecha_decimal(valores@) matches Ok(x) && x == v.deep_view()),
        r matches Err(e) ==> (conversion_fecha_decimal(valores@) matches Err(x) && x == e@),
        r matches Ok(v) ==> v@.len() == valores@.len(),
{
    let c = Column::new("v".into(), valores.as_slice()).cast(&DataType::Date).map_err(|e| e.to_string())?;
    let c = c.strict_cast(&DataType::Float64).map_err(|e| e.to_string())?;
    let c = c.cast(&DataType::String).map_err(|e| e.to_string())?;
    Ok(c.str().map_err(|e| e.to_string())?.iter().map(|v| v.map(String::from)).collect())
}

/// Casts dates, given as days since 1970-01-01, to text with `polars`:
/// `Column::cast` of the days to `Date`, then `Column::strict_cast` to
/// `String`.
///
/// Claimed: the result is the named conversion, with one cell per cell.
#[verifier::external_body]
pub(crate) fn fecha_a_texto(valores: &Vec<Option<i32>>) -> (r: Result<Vec<Option<String>>, String>)
    ensures
        r matches Ok(v) ==> (conversion_fecha_texto(valores@) matches Ok(x) && x == v.deep_view()),
        r matches Err(e) ==> (conversion_fecha_texto(valores@) matches Err(x) && x == e@),
        r matches Ok(v) ==> v@.len() == valores@.len(),
{
    let c = Column::new("v".into(), valores.as_slice()).cast(&DataType::Date).map_err(|e| e.to_string())?;
    let c = c.strict_cast(&DataType::String).map_err(|e| e.to_string())?;
    Ok(c.str().map_err(|e| e.to_string())?.iter().map(|v| v.map(String::from)).collect())
}

/// Casts 64-bit integers to text with `polars`: `Column::strict_cast` to
/// `String`.
///
/// Claimed: the cast succeeds and writes each integer in decimal (`itoa`),
/// keeping empty cells empty.
#[verifier::external_body]
pub(crate) fn entero_a_texto(valores: &Vec<Option<i64>>) -> (r: Result<Vec<Option<String>>, String>)
    ensures
        r is Ok,
        r matches Ok(v) ==> v.deep_view() == textos_enteros(valores@),
{
    let c = Column::new("v".into(), valores.as_slice()).strict_cast(&DataType::String).map_err(|e| e.to_string())?;
    Ok(c.str().map_err(|e| e.to_string())?.iter().map(|v| v.map(String::from)).collect())
}

/// Casts decimal cells, held as text, to text with `polars`:
/// `Column::strict_cast` to `Float64`, then to `String`.
///
/// Claimed: the result is the named conversion, with one cell per cell.
#[verifier::external_body]
pub(crate) fn decimal_a_texto(valores: &Vec<Option<String>>) -> (r: Result<Vec<Option<String>>, String>)
    ensures
        r matches Ok(v) ==> (conversion_decimal_texto(valores.deep_view()) matches Ok(x) && x == v.deep_view()),
        r matches Err(e) ==> (conversion_decimal_texto(valores.deep_view()) matches Err(x) && x == e@),
        r matches Ok(v) ==> v@.len() == valores@.len(),
{
    let c = Column::new("v".into(), valores.as_slice()).strict_cast(&DataType::Float64).map_err(|e| e.to_string())?;
    let c = c.strict_cast(&DataType::String).map_err(|e| e.to_string())?;
    Ok(c.str().map_err(|e| e.to_string())?.iter().map(|v| v.map(String::from)).collect())
}

} // verus!
