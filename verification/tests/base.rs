use diccionarios::base::{ancho_de_encabezado, base_desde_lectura, leer_base, reporte};
use diccionarios::lectura::{ColumnaCsv, TablaCsv};
use diccionarios::bloque::bloque;
use diccionarios::tabla::{castear_columna, Columna, Tabla, Valores};
use diccionarios::tipos::TipoColumna;

fn texto(v: &[Option<&str>]) -> Vec<Option<String>> {
    v.iter().map(|o| o.map(String::from)).collect()
}

fn ejemplo() -> Tabla {
    let csv = "fecha,codigo,monto,precio,nombre,dia\n\
               2021-01-05,007,10,1.5,ana,05/01/2021\n\
               2021-02-06,012,20,2.25,luis,06/02/2021\n\
               2021-03-07,120,30,3,eva,07/03/2021\n";
    leer_base(csv.as_bytes()).unwrap()
}

#[test]
fn base_clasifica_columnas() {
    let t = ejemplo();
    assert_eq!(t.filas, 3);
    let nombres: Vec<&str> = t.columnas.iter().map(|c| c.nombre.as_str()).collect();
    assert_eq!(nombres, vec!["fecha", "codigo", "monto", "precio", "nombre", "dia"]);
    match &t.columnas[0].valores {
        Valores::Fecha(d) => assert_eq!(d, &vec![Some(18632), Some(18664), Some(18693)]),
        _ => panic!("fecha no es fecha"),
    }
    match &t.columnas[1].valores {
        Valores::Texto(v) => assert_eq!(v, &texto(&[Some("007"), Some("012"), Some("120")])),
        _ => panic!("codigo no es texto"),
    }
    match &t.columnas[2].valores {
        Valores::Entero(v) => assert_eq!(v, &vec![Some(10), Some(20), Some(30)]),
        _ => panic!("monto no es entero"),
    }
    match &t.columnas[3].valores {
        Valores::Decimal(v) => assert_eq!(v, &texto(&[Some("1.5"), Some("2.25"), Some("3")])),
        _ => panic!("precio no es decimal"),
    }
    assert!(matches!(t.columnas[4].valores, Valores::Texto(_)));
    match &t.columnas[5].valores {
        Valores::Fecha(d) => assert_eq!(d, &vec![Some(18632), Some(18664), Some(18693)]),
        _ => panic!("dia no es fecha"),
    }
}

#[test]
fn reporte_de_base() {
    let t = ejemplo();
    let r = reporte(&t);
    assert_eq!(r.total_filas, 3);
    assert_eq!(r.columnas, vec!["fecha", "codigo", "monto", "precio", "nombre", "dia"]);
    let tipos: Vec<TipoColumna> = r.esquema.iter().map(|p| p.1).collect();
    assert_eq!(
        tipos,
        vec![
            TipoColumna::Fecha,
            TipoColumna::Texto,
            TipoColumna::Numero,
            TipoColumna::Numero,
            TipoColumna::Texto,
            TipoColumna::Fecha
        ]
    );
    assert_eq!(r.esquema[2].0, "monto");
}

#[test]
fn columna_vacia_queda_entera() {
    // an all-empty column is not a date column, and the integer cast of
    // empty cells succeeds
    let csv = "a,b\n1,\n2,\n";
    let t = leer_base(csv.as_bytes()).unwrap();
    match &t.columnas[1].valores {
        Valores::Entero(v) => assert_eq!(v, &vec![None, None]),
        _ => panic!("b no es entera"),
    }
    assert!(matches!(t.columnas[0].valores, Valores::Entero(_)));
}

#[test]
fn fechas_con_valores_invalidos_siguen_texto() {
    let csv = "f\n2021-01-05\nmañana\n";
    let t = leer_base(csv.as_bytes()).unwrap();
    assert!(matches!(t.columnas[0].valores, Valores::Texto(_)));
}

#[test]
fn base_sin_datos_falla_con_mensaje() {
    let r = leer_base(b"");
    let e = r.err().expect("un archivo vacío no tiene encabezado");
    assert!(e.starts_with("Error al mapear columnas: "));
}

#[test]
fn castear_hacia_coordenada_y_texto() {
    let c = Columna { nombre: "x".to_string(), valores: Valores::Texto(texto(&[Some("19.4"), Some("-99.1")])) };
    let c = castear_columna(c, TipoColumna::Coordenada);
    assert!(matches!(c.valores, Valores::Decimal(_)));
    let c = Columna { nombre: "x".to_string(), valores: Valores::Texto(texto(&[Some("norte")])) };
    let c = castear_columna(c, TipoColumna::Coordenada);
    assert!(matches!(c.valores, Valores::Texto(_)));
    let c = castear_columna(c, TipoColumna::Texto);
    assert!(matches!(c.valores, Valores::Texto(_)));
}

#[test]
fn bloques_de_filas() {
    let t = ejemplo();
    let b = bloque(&t, 1, 1);
    assert_eq!(b.filas, 1);
    match &b.columnas[2].valores {
        Valores::Entero(v) => assert_eq!(v, &vec![Some(20)]),
        _ => panic!(),
    }
    let b = bloque(&t, -2, 10);
    assert_eq!(b.filas, 2);
    match &b.columnas[4].valores {
        Valores::Texto(v) => assert_eq!(v, &texto(&[Some("luis"), Some("eva")])),
        _ => panic!(),
    }
    assert_eq!(bloque(&t, 5, 2).filas, 0);
    assert_eq!(bloque(&t, 0, -1).filas, 3);
    assert_eq!(bloque(&t, -10, 2).filas, 0);
    assert_eq!(bloque(&t, -10, 9).filas, 2);
    assert_eq!(bloque(&t, -10, 5).filas, 0);
    assert_eq!(bloque(&t, 0, 0).filas, 0);
}

#[test]
fn paginas_contiguas() {
    let t = ejemplo();
    let a = bloque(&t, 0, 2);
    let b = bloque(&t, 2, 2);
    assert_eq!(a.filas + b.filas, t.filas);
    match (&a.columnas[4].valores, &b.columnas[4].valores) {
        (Valores::Texto(x), Valores::Texto(y)) => {
            assert_eq!(x, &texto(&[Some("ana"), Some("luis")]));
            assert_eq!(y, &texto(&[Some("eva")]));
        }
        _ => panic!(),
    }
}

#[test]
fn clasificar_dos_veces_no_cambia() {
    let csv = "fecha,codigo,monto,nombre\n2021-01-05,007,10,ana\n2021-02-06,012,20,luis\n";
    let t = leer_base(csv.as_bytes()).unwrap();
    let otra = diccionarios::tabla::castear_frame(t, TipoColumna::Fecha);
    let otra = diccionarios::tabla::castear_frame(otra, TipoColumna::Numero);
    match &otra.columnas[0].valores {
        Valores::Fecha(d) => assert_eq!(d, &vec![Some(18632), Some(18664)]),
        _ => panic!("fecha no es fecha"),
    }
    match &otra.columnas[1].valores {
        Valores::Texto(v) => assert_eq!(v, &texto(&[Some("007"), Some("012")])),
        _ => panic!("codigo no es texto"),
    }
    match &otra.columnas[2].valores {
        Valores::Entero(v) => assert_eq!(v, &vec![Some(10), Some(20)]),
        _ => panic!("monto no es entero"),
    }
    assert!(matches!(otra.columnas[3].valores, Valores::Texto(_)));
}

#[test]
fn segunda_clasificacion_trunca_decimales() {
    let t = ejemplo();
    let otra = diccionarios::tabla::castear_frame(t, TipoColumna::Fecha);
    let otra = diccionarios::tabla::castear_frame(otra, TipoColumna::Numero);
    match &otra.columnas[3].valores {
        Valores::Entero(v) => assert_eq!(v, &vec![Some(1), Some(2), Some(3)]),
        _ => panic!("precio no es entero"),
    }
}

fn columna(nombre: &str, valores: Valores) -> Columna {
    Columna { nombre: nombre.to_string(), valores }
}

fn decimales(v: &Valores) -> Vec<Option<f64>> {
    match v {
        Valores::Decimal(t) => t.iter().map(|o| o.as_ref().map(|s| s.parse::<f64>().unwrap())).collect(),
        _ => panic!("no es decimal"),
    }
}

#[test]
fn numero_sobre_columnas_no_textuales() {
    let c = castear_columna(columna("p", Valores::Decimal(texto(&[Some("1.5"), Some("-2.75"), None]))), TipoColumna::Numero);
    match &c.valores {
        Valores::Entero(v) => assert_eq!(v, &vec![Some(1), Some(-2), None]),
        _ => panic!("no es entero"),
    }
    let c = castear_columna(columna("f", Valores::Fecha(vec![Some(18632)])), TipoColumna::Numero);
    assert!(matches!(&c.valores, Valores::Fecha(d) if d == &vec![Some(18632)]));
    let c = castear_columna(columna("e", Valores::Entero(vec![Some(4)])), TipoColumna::Numero);
    assert!(matches!(&c.valores, Valores::Entero(n) if n == &vec![Some(4)]));
}

#[test]
fn coordenada_sobre_columnas_no_textuales() {
    let c = castear_columna(columna("e", Valores::Entero(vec![Some(42), Some(-7), None])), TipoColumna::Coordenada);
    assert_eq!(decimales(&c.valores), vec![Some(42.0), Some(-7.0), None]);
    let c = castear_columna(columna("f", Valores::Fecha(vec![Some(18632), None])), TipoColumna::Coordenada);
    assert_eq!(decimales(&c.valores), vec![Some(18632.0), None]);
    let c = castear_columna(columna("d", Valores::Decimal(texto(&[Some("1.50")]))), TipoColumna::Coordenada);
    assert!(matches!(&c.valores, Valores::Decimal(t) if t == &texto(&[Some("1.50")])));
}

#[test]
fn texto_sobre_columnas_no_textuales() {
    let c = castear_columna(columna("f", Valores::Fecha(vec![Some(18632), None])), TipoColumna::Texto);
    assert!(matches!(&c.valores, Valores::Texto(t) if t == &texto(&[Some("2021-01-05"), None])));
    let c = castear_columna(columna("e", Valores::Entero(vec![Some(10), Some(-3)])), TipoColumna::Texto);
    assert!(matches!(&c.valores, Valores::Texto(t) if t == &texto(&[Some("10"), Some("-3")])));
    let c = castear_columna(columna("d", Valores::Decimal(texto(&[Some("1.50")]))), TipoColumna::Texto);
    match &c.valores {
        Valores::Texto(t) => {
            let s = t[0].as_deref().unwrap();
            assert_ne!(s, "1.50");
            assert_eq!(s.parse::<f64>().unwrap(), 1.5);
        }
        _ => panic!("no es texto"),
    }
}

fn lectura(columnas: Vec<(&str, Result<Vec<Option<String>>, String>)>, filas: usize) -> TablaCsv {
    TablaCsv {
        filas,
        columnas: columnas.into_iter().map(|(n, v)| ColumnaCsv { nombre: n.to_string(), valores: v }).collect(),
    }
}

#[test]
fn base_desde_lectura_clasifica() {
    let t = lectura(
        vec![
            ("f", Ok(texto(&[Some("2021-01-05"), Some("2021-02-06")]))),
            ("n", Ok(texto(&[Some("1"), None]))),
            ("d", Ok(texto(&[Some("0.5"), Some("2")]))),
        ],
        2,
    );
    let b = base_desde_lectura(t).unwrap();
    assert_eq!(b.filas, 2);
    assert!(matches!(&b.columnas[0].valores, Valores::Fecha(d) if d == &vec![Some(18632), Some(18664)]));
    assert!(matches!(&b.columnas[1].valores, Valores::Entero(n) if n == &vec![Some(1), None]));
    assert!(matches!(&b.columnas[2].valores, Valores::Decimal(_)));
}

#[test]
fn base_desde_lectura_con_columna_no_textual() {
    let t = lectura(vec![("a", Ok(texto(&[Some("x")]))), ("b", Err("no es texto".to_string())), ("c", Err("otra".to_string()))], 1);
    assert_eq!(base_desde_lectura(t).err(), Some("no es texto".to_string()));
}

#[test]
fn ancho_del_encabezado() {
    let h = lectura(vec![("a", Ok(vec![])), ("b", Err("no es texto".to_string()))], 0);
    assert_eq!(ancho_de_encabezado(&Ok(h)), Ok(2));
    assert_eq!(
        ancho_de_encabezado(&Err("sin encabezado".to_string())),
        Err("Error al mapear columnas: sin encabezado".to_string())
    );
}
