use diccionarios::codificacion::decodificar_contenido;

#[test]
fn utf8_valido_se_conserva() {
    assert_eq!(decodificar_contenido("año,ñandú\n".as_bytes()), "año,ñandú\n");
}

#[test]
fn bom_utf8_se_quita() {
    let mut bytes = vec![0xEF, 0xBB, 0xBF];
    bytes.extend_from_slice("a,b\n".as_bytes());
    assert_eq!(decodificar_contenido(&bytes), "a,b\n");
}

#[test]
fn latin1_se_detecta() {
    // "año,descripción" in windows-1252
    let bytes = b"a\xf1o,descripci\xf3n\n".to_vec();
    assert_eq!(decodificar_contenido(&bytes), "año,descripción\n");
}

#[test]
fn vacio() {
    assert_eq!(decodificar_contenido(&[]), "");
}
