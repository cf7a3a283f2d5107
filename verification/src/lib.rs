//! Verified core of a tool that prepares data dictionaries for CKAN data
//! sets: decoding of uploaded files, classification of the columns of a CSV
//! file, reading of dictionary files, paging of the loaded data and the
//! bookkeeping of the list of institutions.

pub mod tipos;
pub mod texto;
pub mod orden;
pub mod codificacion;
pub mod lectura;
pub mod tabla;
pub mod base;
pub mod bloque;
pub mod diccionario;
pub mod instituciones;
pub mod ckan;
