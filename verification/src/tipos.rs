//! Kinds of columns and the storage types that back them.
use vstd::prelude::*;

verus! {

/// Kind of value a column holds, as shown to the user.
#[derive(Clone, Copy, Debug, PartialEq, Eq, Structural)]
pub enum TipoColumna {
    Numero,
    Coordenada,
    Fecha,
    Texto,
}

/// Storage type of a column of a data frame.
///
/// `Otro` stands for every storage type that the classification does not
/// distinguish.
#[derive(Clone, Copy, Debug, PartialEq, Eq, Structural)]
pub enum TipoDato {
    Float64,
    Int64,
    Date,
    Cadena,
    Otro,
}

/// Storage type used for a kind of column.
pub open spec fn tipo_de_almacen(t: TipoColumna) -> TipoDato {
    match t {
        TipoColumna::Numero => TipoDato::Float64,
        TipoColumna::Fecha => TipoDato::Date,
        TipoColumna::Texto => TipoDato::Cadena,
        TipoColumna::Coordenada => TipoDato::Float64,
    }
}

/// Kind of column shown for a storage type; `coord` marks numeric columns
/// that hold coordinates.
pub open spec fn tipo_de_columna(dt: TipoDato, coord: bool) -> TipoColumna {
    match dt {
        TipoDato::Float64 | TipoDato::Int64 => if coord {
            TipoColumna::Coordenada
        } else {
            TipoColumna::Numero
        },
        TipoDato::Date => TipoColumna::Fecha,
        _ => TipoColumna::Texto,
    }
}

impl TipoColumna {
    /// Storage type in which a column of this kind is kept.
    pub fn to_polartype(&self) -> (r: TipoDato)
        ensures
            r == tipo_de_almacen(*self),
    {
        match self {
            TipoColumna::Numero => TipoDato::Float64,
            TipoColumna::Fecha => TipoDato::Date,
            TipoColumna::Texto => TipoDato::Cadena,
            TipoColumna::Coordenada => TipoDato::Float64,
        }
    }

    /// Kind of column shown for a column stored as `dt`.
    pub fn from_polartype(dt: &TipoDato, coord: bool) -> (r: Self)
        ensures
            r == tipo_de_columna(*dt, coord),
    {
        match dt {
            TipoDato::Float64 => {
                if coord {
                    TipoColumna::Coordenada
                } else {
                    TipoColumna::Numero
                }
            },
            TipoDato::Int64 => {
                if coord {
                    TipoColumna::Coordenada
                } else {
                    TipoColumna::Numero
                }
            },
            TipoDato::Date => TipoColumna::Fecha,
            _ => TipoColumna::Texto,
        }
    }
}

/// Storing a kind of column and reading the kind back gives the same kind,
/// when the reader is told whether the column holds coordinates.
pub proof fn ley_tipo_ida_y_vuelta(t: TipoColumna)
    ensures
        tipo_de_columna(tipo_de_almacen(t), t == TipoColumna::Coordenada) == t,
{
}

/// Reading a kind from a storage type, storing it and reading it again
/// gives the kind read the first time.
pub proof fn ley_tipo_estable(dt: TipoDato, coord: bool)
    ensures
        tipo_de_columna(tipo_de_almacen(tipo_de_columna(dt, coord)), coord) == tipo_de_columna(
            dt,
            coord,
        ),
{
}

} // verus!
