use diccionarios::ckan::{conjuntos_de_respuesta, filtro_organizacion, verificar_respuesta, Conjunto, Resource};
use diccionarios::instituciones::{
    actualizar_cache, instituciones_faltantes, instituciones_vigentes, CacheInstituciones, Institucion,
};

fn inst(id: &str, name: &str, display: &str) -> Institucion {
    Institucion { id: id.to_string(), name: name.to_string(), display_name: display.to_string() }
}

fn lista(v: &[&str]) -> Vec<String> {
    v.iter().map(|s| s.to_string()).collect()
}

#[test]
fn faltantes_en_orden_de_lista() {
    let cache = CacheInstituciones { instituciones: vec![inst("1", "sep", "SEP"), inst("2", "imss", "IMSS")] };
    let l = lista(&["inegi", "sep", "conagua", "inegi"]);
    assert_eq!(instituciones_faltantes(&l, &cache), lista(&["inegi", "conagua", "inegi"]));
}

#[test]
fn cache_se_actualiza_y_depura() {
    let mut cache = CacheInstituciones { instituciones: vec![inst("1", "sep", "SEP"), inst("2", "imss", "IMSS")] };
    let l = lista(&["inegi", "sep"]);
    actualizar_cache(&mut cache, vec![inst("3", "inegi", "INEGI"), inst("4", "otra", "Otra")], &l);
    let nombres: Vec<&str> = cache.instituciones.iter().map(|i| i.name.as_str()).collect();
    assert_eq!(nombres, vec!["sep", "inegi"]);
}

#[test]
fn vigentes_ordenadas_por_nombre_visible() {
    let cache = CacheInstituciones {
        instituciones: vec![
            inst("1", "sep", "Secretaría de Educación"),
            inst("2", "inegi", "INEGI"),
            inst("3", "banxico", "Banco de México"),
            inst("4", "sep", "SEP nueva"),
        ],
    };
    let l = lista(&["sep", "inegi", "falta", "banxico"]);
    let r = instituciones_vigentes(&l, &cache);
    let ids: Vec<&str> = r.iter().map(|i| i.id.as_str()).collect();
    // "Banco de México" < "INEGI" < "SEP nueva"; the last cached "sep" wins
    assert_eq!(ids, vec!["3", "2", "4"]);
}

#[test]
fn vigentes_empates_en_orden_de_lista() {
    let cache = CacheInstituciones {
        instituciones: vec![inst("1", "a", "Mismo"), inst("2", "b", "Mismo"), inst("3", "c", "Antes")],
    };
    let r = instituciones_vigentes(&lista(&["b", "a", "c"]), &cache);
    let ids: Vec<&str> = r.iter().map(|i| i.id.as_str()).collect();
    assert_eq!(ids, vec!["3", "2", "1"]);
}

#[test]
fn cache_por_defecto_vacia() {
    let c: CacheInstituciones = Default::default();
    assert!(c.instituciones.is_empty());
}

#[test]
fn respuesta_sin_exito() {
    assert_eq!(verificar_respuesta(false, 5).unwrap_err(), "CKAN regresó success=false");
    assert_eq!(verificar_respuesta(true, 5).unwrap(), 5);
}

#[test]
fn filtro_de_organizacion() {
    assert_eq!(filtro_organizacion("inegi"), "organization:inegi");
}

#[test]
fn conjuntos_marcados_con_institucion() {
    let c = Conjunto {
        id: "x".to_string(),
        name: "censo".to_string(),
        title: "Censo".to_string(),
        institucion: String::new(),
        resources: vec![Resource {
            id: "r".to_string(),
            name: "datos".to_string(),
            description: String::new(),
            url: "https://ejemplo".to_string(),
        }],
    };
    let v = conjuntos_de_respuesta(true, vec![c], "inegi").unwrap();
    assert_eq!(v[0].institucion, "inegi");
    assert_eq!(v[0].resources[0].url, "https://ejemplo");
    assert!(conjuntos_de_respuesta(false, vec![], "inegi").is_err());
}

#[test]
fn cache_completa_con_las_faltantes() {
    let mut cache = CacheInstituciones { instituciones: vec![inst("1", "sep", "SEP")] };
    let l = lista(&["inegi", "sep"]);
    let faltan = instituciones_faltantes(&l, &cache);
    let nuevas: Vec<Institucion> = faltan.iter().map(|n| inst("9", n, &n.to_uppercase())).collect();
    actualizar_cache(&mut cache, nuevas, &l);
    let r = instituciones_vigentes(&l, &cache);
    let nombres: Vec<&str> = r.iter().map(|i| i.name.as_str()).collect();
    assert_eq!(nombres, vec!["inegi", "sep"]);
}
