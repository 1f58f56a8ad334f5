//! Decisión de si una release publicada es una actualización, a partir de
//! la respuesta de GitHub ya leída como JSON.

use std::cmp::Ordering;
use vstd::prelude::*;
use vstd::string::*;
use crate::orden::{comparar_versiones, orden_versiones};
use crate::texto::{caracteres, tramo, texto_de};
use crate::version::{formatear_version, leer_version, parsear_version, texto_version};

verus! {

/// El nombre del instalador que se busca entre los archivos de la release.
pub const NOMBRE_INSTALADOR: &'static str = "Derroche-Setup.exe";

/// Un archivo de una release: su nombre y su URL de descarga, si vienen
/// como texto en la respuesta.
pub struct Archivo {
    pub nombre: Option<String>,
    pub url: Option<String>,
}

/// La vista de un texto opcional.
pub open spec fn vista_opcional(t: Option<String>) -> Option<Seq<char>> {
    match t {
        Some(x) => Some(x@),
        None => None,
    }
}

/// La vista de un archivo: nombre y URL.
pub open spec fn vista_archivo(a: Archivo) -> (Option<Seq<char>>, Option<Seq<char>>) {
    (vista_opcional(a.nombre), vista_opcional(a.url))
}

/// Las vistas de una lista de archivos.
pub open spec fn vista_archivos(a: Option<Vec<Archivo>>) -> Option<Seq<(Option<Seq<char>>, Option<Seq<char>>)>> {
    match a {
        Some(v) => Some(v@.map_values(|x: Archivo| vista_archivo(x))),
        None => None,
    }
}

/// La URL (si la hay) del primer archivo que se llama como el instalador,
/// o `None` si ninguno se llama así.
pub open spec fn buscar_instalador(
    a: Seq<(Option<Seq<char>>, Option<Seq<char>>)>,
) -> Option<Option<Seq<char>>>
    decreases a.len(),
{
    if a.len() == 0 {
        None
    } else if a[0].0 == Some(NOMBRE_INSTALADOR@) {
        Some(a[0].1)
    } else {
        buscar_instalador(a.drop_first())
    }
}

/// El texto de una etiqueta sin la `v` inicial, si la tiene.
pub open spec fn sin_v(t: Seq<char>) -> Seq<char> {
    if t.len() > 0 && t[0] == 'v' {
        t.drop_first()
    } else {
        t
    }
}

/// Lo que se responde al buscar una actualización: un error, `None` si la
/// versión publicada no es posterior a la actual, o la versión publicada
/// escrita en forma canónica junto con la URL del instalador cuando se pide.
pub open spec fn respuesta_busqueda(
    etiqueta: Option<Seq<char>>,
    actual: Seq<char>,
    con_instalador: bool,
    archivos: Option<Seq<(Option<Seq<char>>, Option<Seq<char>>)>>,
) -> Result<Option<(Seq<char>, Option<Seq<char>>)>, Seq<char>> {
    match etiqueta {
        None => Err("GitHub no devolvió la versión de la release"@),
        Some(t) => match leer_version(sin_v(t)) {
            Err(e) => Err("GitHub devolvió una versión inválida ("@ + t + "): "@ + e),
            Ok(remota) => match leer_version(actual) {
                Err(e) => Err("La versión actual de la aplicación no es válida: "@ + e),
                Ok(vigente) => if orden_versiones(remota, vigente) != Ordering::Greater {
                    Ok(None)
                } else if !con_instalador {
                    Ok(Some((texto_version(remota), None)))
                } else {
                    match archivos {
                        None => Err("La release no contiene archivos"@),
                        Some(a) => match buscar_instalador(a) {
                            None => Err("La release no contiene Derroche-Setup.exe"@),
                            Some(None) => Err("GitHub no devolvió la URL del instalador"@),
                            Some(Some(u)) => Ok(Some((texto_version(remota), Some(u)))),
                        },
                    }
                },
            },
        },
    }
}

/// La vista de la respuesta de una búsqueda.
pub open spec fn vista_respuesta(
    r: Result<Option<(String, Option<String>)>, String>,
) -> Result<Option<(Seq<char>, Option<Seq<char>>)>, Seq<char>> {
    match r {
        Ok(Some((v, u))) => Ok(Some((v@, vista_opcional(u)))),
        Ok(None) => Ok(None),
        Err(e) => Err(e@),
    }
}

/// Copia un texto opcional.
fn copiar_opcional(t: &Option<String>) -> (r: Option<String>)
    ensures
        vista_opcional(r) == vista_opcional(*t),
{
    match t {
        Some(x) => Some(x.clone()),
        None => None,
    }
}

/// Busca el instalador entre los archivos de la release.
fn instalador_en(archivos: &Vec<Archivo>) -> (r: Option<Option<String>>)
    ensures
        match (r, buscar_instalador(archivos@.map_values(|x: Archivo| vista_archivo(x)))) {
            (None, None) => true,
            (Some(u), Some(w)) => vista_opcional(u) == w,
            _ => false,
        },
{
    let ghost todos = archivos@.map_values(|x: Archivo| vista_archivo(x));
    let mut i: usize = 0;
    let ghost mut j: int = 0;
    assert(todos.skip(0) =~= todos);
    while i < archivos.len()
        invariant
            todos == archivos@.map_values(|x: Archivo| vista_archivo(x)),
            i <= archivos.len(),
            j == i,
            buscar_instalador(todos) == buscar_instalador(todos.skip(j)),
        decreases archivos.len() - i,
    {
        assert(todos.skip(j)[0] == vista_archivo(archivos@[j]));
        let es_instalador = match &archivos[i].nombre {
            Some(nombre) => crate::texto::textos_iguales(nombre.as_str(), NOMBRE_INSTALADOR),
            None => false,
        };
        if es_instalador {
            return Some(copiar_opcional(&archivos[i].url));
        }
        assert(todos.skip(j).drop_first() =~= todos.skip(j + 1));
        i = i + 1;
        proof {
            j = j + 1;
        }
    }
    assert(todos.skip(j) =~= Seq::<(Option<Seq<char>>, Option<Seq<char>>)>::empty());
    None
}

/// Decide si la release con etiqueta `etiqueta` es una actualización de la
/// versión `version_actual`. Si `con_instalador`, además se exige que entre
/// `archivos` esté el instalador con su URL.
pub fn decidir_actualizacion(
    etiqueta: Option<String>,
    version_actual: &str,
    con_instalador: bool,
    archivos: Option<Vec<Archivo>>,
) -> (r: Result<Option<(String, Option<String>)>, String>)
    ensures
        vista_respuesta(r) == respuesta_busqueda(
            vista_opcional(etiqueta),
            version_actual@,
            con_instalador,
            vista_archivos(archivos),
        ),
{
    let tag = match etiqueta {
        Some(t) => t,
        None => {
            return Err(String::from_str("GitHub no devolvió la versión de la release"));
        },
    };
    let caracteres_tag = caracteres(tag.as_str());
    let sin_prefijo = if caracteres_tag.len() > 0 && caracteres_tag[0] == 'v' {
        tramo(&caracteres_tag, 1, caracteres_tag.len())
    } else {
        tramo(&caracteres_tag, 0, caracteres_tag.len())
    };
    assert(sin_prefijo@ =~= sin_v(tag@));
    let texto_remoto = texto_de(&sin_prefijo);
    let remota = match parsear_version(texto_remoto.as_str()) {
        Ok(v) => v,
        Err(error) => {
            let mut e = String::from_str("GitHub devolvió una versión inválida (");
            e.append(tag.as_str());
            e.append("): ");
            e.append(error.as_str());
            return Err(e);
        },
    };
    let vigente = match parsear_version(version_actual) {
        Ok(v) => v,
        Err(error) => {
            let mut e = String::from_str("La versión actual de la aplicación no es válida: ");
            e.append(error.as_str());
            return Err(e);
        },
    };
    match comparar_versiones(&remota, &vigente) {
        Ordering::Greater => {},
        _ => {
            return Ok(None);
        },
    }
    if !con_instalador {
        return Ok(Some((formatear_version(&remota), None)));
    }
    let lista = match archivos {
        Some(a) => a,
        None => {
            return Err(String::from_str("La release no contiene archivos"));
        },
    };
    match instalador_en(&lista) {
        None => Err(String::from_str("La release no contiene Derroche-Setup.exe")),
        Some(None) => Err(String::from_str("GitHub no devolvió la URL del instalador")),
        Some(Some(url)) => Ok(Some((formatear_version(&remota), Some(url)))),
    }
}

/// Un valor JSON de `serde_json`, que aquí sólo se recorre.
#[verifier::external_type_specification]
#[verifier::external_body]
pub struct ValorJson(serde_json::Value);

/// El valor del campo `clave` de `valor`, tal como lo da
/// `serde_json::Value::get`.
pub uninterp spec fn campo_de(valor: serde_json::Value, clave: Seq<char>) -> Option<serde_json::Value>;

/// El texto de `valor`, tal como lo da `serde_json::Value::as_str`.
pub uninterp spec fn texto_de_valor(valor: serde_json::Value) -> Option<Seq<char>>;

/// Los elementos de `valor`, tal como los da `serde_json::Value::as_array`.
pub uninterp spec fn lista_de(valor: serde_json::Value) -> Option<Seq<serde_json::Value>>;

/// Llama a `serde_json::Value::get` con una clave: según su código, da el
/// valor de la clave cuando el valor es un objeto que la tiene, y `None` en
/// cualquier otro caso. El contrato afirma que el resultado depende sólo
/// del valor y de la clave (se nombra `campo_de`); no dice cuál es, porque
/// el valor no tiene vista.
#[verifier::external_body]
fn campo_json<'a>(valor: &'a serde_json::Value, clave: &str) -> (r: Option<&'a serde_json::Value>)
    ensures
        r is None <==> campo_de(*valor, clave@) is None,
        r is Some ==> campo_de(*valor, clave@) == Some(*r.unwrap()),
{
    valor.get(clave)
}

/// Llama a `serde_json::Value::as_str`: según su código, da el texto cuando
/// el valor es una cadena, y `None` en otro caso. El contrato afirma que el
/// resultado depende sólo del valor (se nombra `texto_de_valor`).
#[verifier::external_body]
fn texto_json(valor: &serde_json::Value) -> (r: Option<String>)
    ensures
        vista_opcional(r) == texto_de_valor(*valor),
{
    valor.as_str().map(String::from)
}

/// Llama a `serde_json::Value::as_array`: según su código, da los elementos
/// cuando el valor es una lista, y `None` en otro caso. El contrato afirma
/// que el resultado depende sólo del valor (se nombra `lista_de`).
#[verifier::external_body]
fn lista_json(valor: &serde_json::Value) -> (r: Option<&Vec<serde_json::Value>>)
    ensures
        r is None <==> lista_de(*valor) is None,
        r is Some ==> lista_de(*valor) == Some(r.unwrap()@),
{
    valor.as_array()
}

/// El texto del campo `clave` de un objeto JSON, si existe y es una cadena.
pub open spec fn texto_de_campo(valor: serde_json::Value, clave: Seq<char>) -> Option<Seq<char>> {
    match campo_de(valor, clave) {
        Some(v) => texto_de_valor(v),
        None => None,
    }
}

/// Un archivo de la release descrito en JSON: sus campos `name` y
/// `browser_download_url`.
pub open spec fn archivo_de(valor: serde_json::Value) -> (Option<Seq<char>>, Option<Seq<char>>) {
    (texto_de_campo(valor, "name"@), texto_de_campo(valor, "browser_download_url"@))
}

/// Los archivos de la release descrita por `datos`: cada elemento de la
/// lista `assets`, si `assets` es una lista.
pub open spec fn archivos_de_release(datos: serde_json::Value) -> Option<Seq<(Option<Seq<char>>, Option<Seq<char>>)>> {
    match campo_de(datos, "assets"@) {
        Some(a) => match lista_de(a) {
            Some(l) => Some(l.map_values(|x: serde_json::Value| archivo_de(x))),
            None => None,
        },
        None => None,
    }
}

/// El texto del campo `clave` de un objeto JSON, si existe y es una cadena.
fn campo_de_texto(valor: &serde_json::Value, clave: &str) -> (r: Option<String>)
    ensures
        vista_opcional(r) == texto_de_campo(*valor, clave@),
{
    match campo_json(valor, clave) {
        Some(v) => texto_json(v),
        None => None,
    }
}

/// Los archivos de la release: para cada elemento de la lista `assets`, su
/// campo `name` y su campo `browser_download_url`.
fn archivos_json(datos: &serde_json::Value) -> (r: Option<Vec<Archivo>>)
    ensures
        vista_archivos(r) == archivos_de_release(*datos),
{
    let assets = match campo_json(datos, "assets") {
        Some(v) => v,
        None => {
            return None;
        },
    };
    let lista = match lista_json(assets) {
        Some(l) => l,
        None => {
            return None;
        },
    };
    let ghost esperado = lista@.map_values(|x: serde_json::Value| archivo_de(x));
    let mut archivos: Vec<Archivo> = Vec::new();
    let mut i: usize = 0;
    while i < lista.len()
        invariant
            i <= lista.len(),
            esperado == lista@.map_values(|x: serde_json::Value| archivo_de(x)),
            archivos@.map_values(|x: Archivo| vista_archivo(x)) == esperado.take(i as int),
        decreases lista.len() - i,
    {
        let archivo = Archivo {
            nombre: campo_de_texto(&lista[i], "name"),
            url: campo_de_texto(&lista[i], "browser_download_url"),
        };
        assert(vista_archivo(archivo) == esperado[i as int]);
        let ghost previos = archivos@;
        archivos.push(archivo);
        assert(archivos@ == previos.push(archivo));
        assert(archivos@.map_values(|x: Archivo| vista_archivo(x)) =~= previos.map_values(
            |x: Archivo| vista_archivo(x),
        ).push(vista_archivo(archivo)));
        assert(esperado.take(i + 1) =~= esperado.take(i as int).push(esperado[i as int]));
        i = i + 1;
    }
    assert(esperado.take(lista.len() as int) =~= esperado);
    Some(archivos)
}

/// Decide si la release descrita por la respuesta `datos` de GitHub es una
/// actualización de `version_actual`. La etiqueta se toma del campo
/// `tag_name`; si `con_instalador`, los archivos se toman de `assets`.
pub fn evaluar_release(
    datos: &serde_json::Value,
    version_actual: &str,
    con_instalador: bool,
) -> (r: Result<Option<(String, Option<String>)>, String>)
    ensures
        vista_respuesta(r) == respuesta_busqueda(
            texto_de_campo(*datos, "tag_name"@),
            version_actual@,
            con_instalador,
            if con_instalador { archivos_de_release(*datos) } else { None },
        ),
{
    let etiqueta = campo_de_texto(datos, "tag_name");
    let archivos = if con_instalador {
        archivos_json(datos)
    } else {
        None
    };
    let ghost e = vista_opcional(etiqueta);
    let ghost a = vista_archivos(archivos);
    let r = decidir_actualizacion(etiqueta, version_actual, con_instalador, archivos);
    assert(vista_respuesta(r) == respuesta_busqueda(e, version_actual@, con_instalador, a));
    r
}

} // verus!
