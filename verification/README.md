# diccionarios

Verified core of a desktop tool that prepares data dictionaries for the data
sets of a CKAN catalogue (datos.gob.mx).

- `src/` is the library, written in Verus: decoding of uploaded files
  (`codificacion`), reading of CSV files through `polars` (`lectura`), the
  classification of columns into dates, integers, decimals and text
  (`tabla`, `base`), pages of rows (`bloque`), dictionary files
  (`diccionario`), the list of institutions and its cache (`instituciones`,
  `orden`) and the answers of the catalogue (`ckan`).
- `app/` is the Tauri application around it: the commands called by the
  interface, network and file access, and the serializable copies of the
  library's types.
- `tests/` runs the library on concrete inputs.
