use diccionarios::diccionario::{diccionario_desde_lectura, leer_diccionario};
use diccionarios::lectura::{ColumnaCsv, TablaCsv};

#[test]
fn diccionario_con_cuatro_columnas() {
    let csv = "columna,tipo,etiqueta,descripcion,extra\nid,texto,Identificador,,x\nmonto,numero,Monto,Importe en pesos,y\n";
    let filas = leer_diccionario(csv.as_bytes()).unwrap().unwrap();
    assert_eq!(filas.len(), 2);
    assert_eq!(filas[0].columna.as_deref(), Some("id"));
    assert_eq!(filas[0].tipo.as_deref(), Some("texto"));
    assert_eq!(filas[0].etiqueta.as_deref(), Some("Identificador"));
    assert_eq!(filas[0].descripcion, None);
    assert_eq!(filas[1].descripcion.as_deref(), Some("Importe en pesos"));
}

#[test]
fn diccionario_en_latin1() {
    let bytes = b"columna,tipo,etiqueta,descripcion\na\xf1o,fecha,A\xf1o,Descripci\xf3n\n".to_vec();
    let filas = leer_diccionario(&bytes).unwrap().unwrap();
    assert_eq!(filas[0].columna.as_deref(), Some("año"));
    assert_eq!(filas[0].descripcion.as_deref(), Some("Descripción"));
}

#[test]
fn diccionario_con_columna_numerica_falla() {
    let csv = "columna,tipo,etiqueta,descripcion\na,1,b,c\nd,2,e,f\n";
    let r = leer_diccionario(csv.as_bytes()).unwrap();
    assert!(r.is_err());
}

#[test]
fn diccionario_con_pocas_columnas() {
    let csv = "columna,tipo\na,b\n";
    assert!(leer_diccionario(csv.as_bytes()).is_none());
}

#[test]
fn diccionario_pocas_columnas_con_error_antes() {
    let csv = "columna,tipo\na,1\n";
    let r = leer_diccionario(csv.as_bytes()).unwrap();
    assert!(r.is_err());
}

fn celdas(v: &[Option<&str>]) -> Result<Vec<Option<String>>, String> {
    Ok(v.iter().map(|o| o.map(String::from)).collect())
}

fn lectura(columnas: Vec<Result<Vec<Option<String>>, String>>, filas: usize) -> TablaCsv {
    TablaCsv {
        filas,
        columnas: columnas
            .into_iter()
            .enumerate()
            .map(|(i, v)| ColumnaCsv { nombre: format!("c{}", i), valores: v })
            .collect(),
    }
}

#[test]
fn diccionario_desde_lectura_da_filas() {
    let t = lectura(
        vec![celdas(&[Some("id")]), celdas(&[Some("texto")]), celdas(&[None]), celdas(&[Some("Clave")]), Err("x".to_string())],
        1,
    );
    let filas = diccionario_desde_lectura(&t).unwrap().unwrap();
    assert_eq!(filas.len(), 1);
    assert_eq!(filas[0].columna.as_deref(), Some("id"));
    assert_eq!(filas[0].tipo.as_deref(), Some("texto"));
    assert_eq!(filas[0].etiqueta, None);
    assert_eq!(filas[0].descripcion.as_deref(), Some("Clave"));
}

#[test]
fn diccionario_desde_lectura_errores() {
    let t = lectura(vec![celdas(&[Some("a")]), Err("tipo no es texto".to_string())], 1);
    assert_eq!(diccionario_desde_lectura(&t).unwrap().err(), Some("tipo no es texto".to_string()));
    let t = lectura(vec![celdas(&[Some("a")]), celdas(&[Some("b")])], 1);
    assert!(diccionario_desde_lectura(&t).is_none());
}
