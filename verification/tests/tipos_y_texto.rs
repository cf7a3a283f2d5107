use diccionarios::orden::comparar;
use diccionarios::texto::{caracteres, tiene_cero_inicial, tiene_punto_decimal};
use diccionarios::tipos::{TipoColumna, TipoDato};

#[test]
fn to_polartype_por_tipo() {
    assert_eq!(TipoColumna::Numero.to_polartype(), TipoDato::Float64);
    assert_eq!(TipoColumna::Coordenada.to_polartype(), TipoDato::Float64);
    assert_eq!(TipoColumna::Fecha.to_polartype(), TipoDato::Date);
    assert_eq!(TipoColumna::Texto.to_polartype(), TipoDato::Cadena);
}

#[test]
fn from_polartype_por_tipo() {
    assert_eq!(TipoColumna::from_polartype(&TipoDato::Float64, false), TipoColumna::Numero);
    assert_eq!(TipoColumna::from_polartype(&TipoDato::Float64, true), TipoColumna::Coordenada);
    assert_eq!(TipoColumna::from_polartype(&TipoDato::Int64, false), TipoColumna::Numero);
    assert_eq!(TipoColumna::from_polartype(&TipoDato::Int64, true), TipoColumna::Coordenada);
    assert_eq!(TipoColumna::from_polartype(&TipoDato::Date, true), TipoColumna::Fecha);
    assert_eq!(TipoColumna::from_polartype(&TipoDato::Cadena, false), TipoColumna::Texto);
    assert_eq!(TipoColumna::from_polartype(&TipoDato::Otro, true), TipoColumna::Texto);
}

#[test]
fn tipo_ida_y_vuelta() {
    for t in [TipoColumna::Numero, TipoColumna::Coordenada, TipoColumna::Fecha, TipoColumna::Texto] {
        let coord = t == TipoColumna::Coordenada;
        assert_eq!(TipoColumna::from_polartype(&t.to_polartype(), coord), t);
    }
}

#[test]
fn ceros_iniciales_y_punto_decimal() {
    assert!(tiene_cero_inicial("007"));
    assert!(tiene_cero_inicial("  0123\t"));
    assert!(!tiene_cero_inicial("0"));
    assert!(!tiene_cero_inicial("10"));
    assert!(!tiene_cero_inicial("0.5"));
    assert!(!tiene_cero_inicial("0a"));
    assert!(tiene_punto_decimal(" 1.5 "));
    assert!(tiene_punto_decimal("."));
    assert!(!tiene_punto_decimal("   "));
    assert!(!tiene_punto_decimal("15"));
}

#[test]
fn caracteres_y_orden() {
    assert_eq!(caracteres("año"), vec!['a', 'ñ', 'o']);
    assert!(comparar("abc", "abd"));
    assert!(comparar("ab", "abc"));
    assert!(!comparar("abc", "ab"));
    assert!(comparar("Zeta", "alfa"));
    assert!(comparar("same", "same"));
    assert_eq!(comparar("ñ", "o"), "ñ" <= "o");
}
