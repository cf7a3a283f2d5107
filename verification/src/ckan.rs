//! Handling of the answers of the CKAN catalogue: the success flag of an
//! answer, the data sets of an institution, and the filter that asks for
//! them.
use vstd::prelude::*;

verus! {

/// A downloadable resource of a data set.
pub struct Resource {
    pub id: String,
    pub name: String,
    pub description: String,
    pub url: String,
}

/// A data set of the catalogue, with the institution that publishes it.
pub struct Conjunto {
    pub id: String,
    pub name: String,
    pub title: String,
    pub institucion: String,
    pub resources: Vec<Resource>,
}

/// The message given when the catalogue answers without success.
pub open spec fn mensaje_sin_exito() -> Seq<char> {
    "CKAN regresó success=false"@
}

/// The result of an answer of the catalogue when it reports success, and
/// the message of failure otherwise.
pub fn verificar_respuesta<T>(success: bool, result: T) -> (r: Result<T, String>)
    ensures
        success ==> r == Ok::<T, String>(result),
        !success ==> (r matches Err(e) && e@ == mensaje_sin_exito()),
{
    if !success {
        return Err(String::from_str("CKAN regresó success=false"));
    }
    Ok(result)
}

/// The query filter that selects the data sets of an institution.
pub fn filtro_organizacion(institucion: &str) -> (r: String)
    ensures
        r@ == "organization:"@ + institucion@,
{
    let mut r = String::from_str("organization:");
    r.append(institucion);
    r
}

/// The data sets, each marked as published by `institucion`, everything
/// else unchanged.
pub fn con_institucion(conjuntos: Vec<Conjunto>, institucion: &str) -> (r: Vec<Conjunto>)
    ensures
        r@.len() == conjuntos@.len(),
        forall|i: int|
            0 <= i < r@.len() ==> (#[trigger] r@[i]).institucion@ == institucion@ && r@[i].id
                == conjuntos@[i].id && r@[i].name == conjuntos@[i].name && r@[i].title
                == conjuntos@[i].title && r@[i].resources == conjuntos@[i].resources,
{
    let ghost original = conjuntos@;
    let mut pendientes = conjuntos;
    let mut r: Vec<Conjunto> = Vec::new();
    while pendientes.len() > 0
        invariant
            r@.len() + pendientes@.len() == original.len(),
            forall|j: int| 0 <= j < pendientes@.len() ==> #[trigger] pendientes@[j] == original[r@.len() + j],
            forall|i: int|
                0 <= i < r@.len() ==> (#[trigger] r@[i]).institucion@ == institucion@ && r@[i].id
                    == original[i].id && r@[i].name == original[i].name && r@[i].title
                    == original[i].title && r@[i].resources == original[i].resources,
        decreases pendientes@.len(),
    {
        let c = pendientes.remove(0);
        assert(c == original[r@.len() as int]);
        r.push(Conjunto {
            id: c.id,
            name: c.name,
            title: c.title,
            institucion: String::from_str(institucion),
            resources: c.resources,
        });
        assert forall|j: int| 0 <= j < pendientes@.len() implies #[trigger] pendientes@[j] == original[r@.len() + j] by {
        }
    }
    r
}

/// The data sets of an answer of the catalogue, each marked as published
/// by `institucion`, when the answer reports success; the message of
/// failure otherwise.
pub fn conjuntos_de_respuesta(success: bool, conjuntos: Vec<Conjunto>, institucion: &str) -> (r: Result<Vec<Conjunto>, String>)
    ensures
        !success ==> (r matches Err(e) && e@ == mensaje_sin_exito()),
        success ==> (r matches Ok(v) && v@.len() == conjuntos@.len() && forall|i: int|
            0 <= i < v@.len() ==> (#[trigger] v@[i]).institucion@ == institucion@ && v@[i].id
                == conjuntos@[i].id && v@[i].name == conjuntos@[i].name && v@[i].title
                == conjuntos@[i].title && v@[i].resources == conjuntos@[i].resources),
{
    let conjuntos = verificar_respuesta(success, conjuntos)?;
    Ok(con_institucion(conjuntos, institucion))
}

} // verus!
