use std::cmp::Ordering;

use derroche::actualizacion::{decidir_actualizacion, evaluar_release, Archivo};
use derroche::orden::comparar_versiones;
use derroche::version::{formatear_version, parsear_version, IdentificadorPrerelease};

fn v(texto: &str) -> derroche::version::Version {
    parsear_version(texto).unwrap()
}

#[test]
fn lee_versiones_completas() {
    let version = v("1.2.3-beta.11.x-y+build.5");
    assert_eq!(version.0, 1);
    assert_eq!(version.1, 2);
    assert_eq!(version.2, 3);
    assert_eq!(
        version.3,
        vec![
            IdentificadorPrerelease::Texto("beta".to_string()),
            IdentificadorPrerelease::Numerico(11),
            IdentificadorPrerelease::Texto("x-y".to_string()),
        ]
    );
    assert_eq!(formatear_version(&version), "1.2.3-beta.11.x-y");
    assert_eq!(formatear_version(&v("10.0.0")), "10.0.0");
    assert_eq!(formatear_version(&v("1.2.3-")), "1.2.3");
}

#[test]
fn rechaza_versiones_invalidas() {
    assert_eq!(parsear_version("1.2"), Err("debe tener formato MAJOR.MINOR.PATCH".to_string()));
    assert_eq!(parsear_version("1.2.3.4"), Err("debe tener formato MAJOR.MINOR.PATCH".to_string()));
    assert_eq!(parsear_version("01.2.3"), Err("los números no pueden tener ceros iniciales".to_string()));
    assert_eq!(parsear_version("1..3"), Err("los números no pueden tener ceros iniciales".to_string()));
    assert_eq!(parsear_version("1.a.3"), Err("número inválido: a".to_string()));
    assert_eq!(
        parsear_version("1.2.18446744073709551616"),
        Err("número inválido: 18446744073709551616".to_string())
    );
    assert_eq!(parsear_version("1.2.3-beta..1"), Err("identificador prerelease inválido".to_string()));
    assert_eq!(parsear_version("1.2.3-b_c"), Err("identificador prerelease inválido".to_string()));
    assert_eq!(parsear_version("1.2.3-01"), Err("los números no pueden tener ceros iniciales".to_string()));
    assert_eq!(parsear_version("18446744073709551615.0.0").map(|x| x.0), Ok(u64::MAX));
}

#[test]
fn compara_versiones_por_precedencia() {
    assert_eq!(comparar_versiones(&v("1.0.0"), &v("2.0.0")), Ordering::Less);
    assert_eq!(comparar_versiones(&v("1.10.0"), &v("1.9.0")), Ordering::Greater);
    assert_eq!(comparar_versiones(&v("1.0.0-alpha"), &v("1.0.0")), Ordering::Less);
    assert_eq!(comparar_versiones(&v("1.0.0"), &v("1.0.0+abc")), Ordering::Equal);
    let orden = [
        "1.0.0-alpha",
        "1.0.0-alpha.1",
        "1.0.0-alpha.beta",
        "1.0.0-beta",
        "1.0.0-beta.2",
        "1.0.0-beta.11",
        "1.0.0-rc.1",
        "1.0.0",
    ];
    for i in 0..orden.len() {
        for j in 0..orden.len() {
            assert_eq!(comparar_versiones(&v(orden[i]), &v(orden[j])), i.cmp(&j));
        }
    }
}

#[test]
fn decide_si_hay_actualizacion() {
    assert_eq!(decidir_actualizacion(Some("v1.3.0".to_string()), "1.2.9", false, None), Ok(Some(("1.3.0".to_string(), None))));
    assert_eq!(decidir_actualizacion(Some("v1.2.9".to_string()), "1.2.9", false, None), Ok(None));
    assert_eq!(decidir_actualizacion(Some("1.0.0".to_string()), "1.2.9", false, None), Ok(None));
    assert_eq!(
        decidir_actualizacion(None, "1.2.9", false, None),
        Err("GitHub no devolvió la versión de la release".to_string())
    );
    assert_eq!(
        decidir_actualizacion(Some("vx".to_string()), "1.2.9", false, None),
        Err("GitHub devolvió una versión inválida (vx): debe tener formato MAJOR.MINOR.PATCH".to_string())
    );
    assert_eq!(
        decidir_actualizacion(Some("v1.0.0".to_string()), "1.0", false, None),
        Err("La versión actual de la aplicación no es válida: debe tener formato MAJOR.MINOR.PATCH".to_string())
    );
}

#[test]
fn busca_el_instalador() {
    let archivos = || {
        vec![
            Archivo { nombre: Some("notas.txt".to_string()), url: Some("a".to_string()) },
            Archivo { nombre: Some("Derroche-Setup.exe".to_string()), url: Some("https://x/y".to_string()) },
        ]
    };
    assert_eq!(
        decidir_actualizacion(Some("v2.0.0".to_string()), "1.0.0", true, Some(archivos())),
        Ok(Some(("2.0.0".to_string(), Some("https://x/y".to_string()))))
    );
    assert_eq!(
        decidir_actualizacion(Some("v2.0.0".to_string()), "1.0.0", true, None),
        Err("La release no contiene archivos".to_string())
    );
    assert_eq!(
        decidir_actualizacion(Some("v2.0.0".to_string()), "1.0.0", true, Some(vec![])),
        Err("La release no contiene Derroche-Setup.exe".to_string())
    );
    assert_eq!(
        decidir_actualizacion(
            Some("v2.0.0".to_string()),
            "1.0.0",
            true,
            Some(vec![Archivo { nombre: Some("Derroche-Setup.exe".to_string()), url: None }])
        ),
        Err("GitHub no devolvió la URL del instalador".to_string())
    );
}

#[test]
fn evalua_la_respuesta_de_github() {
    let datos: serde_json::Value = serde_json::from_str(
        r#"{"tag_name": "v1.4.0", "assets": [{"name": "Derroche-Setup.exe", "browser_download_url": "https://d/e"}]}"#,
    )
    .unwrap();
    assert_eq!(evaluar_release(&datos, "1.3.9", false), Ok(Some(("1.4.0".to_string(), None))));
    assert_eq!(
        evaluar_release(&datos, "1.3.9", true),
        Ok(Some(("1.4.0".to_string(), Some("https://d/e".to_string()))))
    );
    assert_eq!(evaluar_release(&datos, "1.4.0", true), Ok(None));
    let sin_tag: serde_json::Value = serde_json::from_str(r#"{"tag_name": 5}"#).unwrap();
    assert_eq!(
        evaluar_release(&sin_tag, "1.0.0", false),
        Err("GitHub no devolvió la versión de la release".to_string())
    );
    let sin_assets: serde_json::Value = serde_json::from_str(r#"{"tag_name": "v9.0.0", "assets": {}}"#).unwrap();
    assert_eq!(
        evaluar_release(&sin_assets, "1.0.0", true),
        Err("La release no contiene archivos".to_string())
    );
}

#[test]
fn escribe_la_version_como_se_leyo() {
    for texto in ["0.0.0", "1.2.3", "10.20.30-rc.1", "1.0.0-alpha-beta.7.x-y", "2.0.0-a-"] {
        assert_eq!(formatear_version(&parsear_version(texto).unwrap()), texto);
    }
    assert_eq!(formatear_version(&parsear_version("1.2.3+build").unwrap()), "1.2.3");
    assert_eq!(formatear_version(&parsear_version("1.2.3-").unwrap()), "1.2.3");
}

#[test]
fn lee_la_etiqueta_de_tag_name() {
    let datos: serde_json::Value =
        serde_json::from_str(r#"{"name": "v9.9.9", "tag_name": "v1.0.1"}"#).unwrap();
    assert_eq!(evaluar_release(&datos, "1.0.0", false), Ok(Some(("1.0.1".to_string(), None))));
    let solo_nombre: serde_json::Value = serde_json::from_str(r#"{"name": "v9.9.9"}"#).unwrap();
    assert_eq!(
        evaluar_release(&solo_nombre, "1.0.0", false),
        Err("GitHub no devolvió la versión de la release".to_string())
    );
    let lista: serde_json::Value = serde_json::from_str(
        r#"{"tag_name": "v2.0.0", "assets": [{"name": "otro.zip", "browser_download_url": "u1"}, {"name": "Derroche-Setup.exe"}]}"#,
    )
    .unwrap();
    assert_eq!(
        evaluar_release(&lista, "1.0.0", true),
        Err("GitHub no devolvió la URL del instalador".to_string())
    );
}
