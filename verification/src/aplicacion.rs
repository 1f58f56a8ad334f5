//! La aplicación completa: cómo se reparten entre las pantallas de gastos y
//! de configuración los datos que se cargan y la configuración por defecto.

use vstd::prelude::*;
use crate::configuracion;
use crate::models::{
    Categoria, Configuracion, Persona, categoria_por_nombre, con_nombre, encontrado, persona_por_nombre,
    vistas_categorias, vistas_personas,
};
use crate::pantalla_gastos;

verus! {

/// Una copia de una lista de categorías.
pub fn copiar_categorias(v: &Vec<Categoria>) -> (r: Vec<Categoria>)
    ensures
        r@ == v@,
{
    let mut r: Vec<Categoria> = Vec::new();
    let mut i: usize = 0;
    while i < v.len()
        invariant
            i <= v.len(),
            r@ == v@.take(i as int),
        decreases v.len() - i,
    {
        r.push(v[i].copiar());
        i = i + 1;
        assert(r@ =~= v@.take(i as int));
    }
    assert(v@.take(v.len() as int) =~= v@);
    r
}

/// Una copia de una lista de personas.
pub fn copiar_personas(v: &Vec<Persona>) -> (r: Vec<Persona>)
    ensures
        r@ == v@,
{
    let mut r: Vec<Persona> = Vec::new();
    let mut i: usize = 0;
    while i < v.len()
        invariant
            i <= v.len(),
            r@ == v@.take(i as int),
        decreases v.len() - i,
    {
        r.push(v[i].copiar());
        i = i + 1;
        assert(r@ =~= v@.take(i as int));
    }
    assert(v@.take(v.len() as int) =~= v@);
    r
}

/// Volver a la pantalla de gastos: la tabla pasa a mostrar el mes y el año
/// por defecto de la configuración.
pub fn mostrar_gastos(gastos: &mut pantalla_gastos::Estado, configuracion: &configuracion::Estado)
    ensures
        *final(gastos) == (pantalla_gastos::Estado {
            mes: configuracion.mes_default,
            anio: configuracion.anio_default as u32,
            ..*old(gastos)
        }),
{
    gastos.mes = configuracion.mes_default;
    gastos.anio = configuracion.anio_default as u32;
}

/// Ir a la pantalla de análisis: muestra el mes y el año por defecto de la
/// configuración.
pub fn mostrar_analisis(configuracion: &configuracion::Estado) -> (r: (u32, i32))
    ensures
        r == (configuracion.mes_default, configuracion.anio_default),
{
    (configuracion.mes_default, configuracion.anio_default)
}

/// Recibir las categorías y personas recargadas: ambas pantallas pasan a
/// tenerlas; el formulario de gastos elige "Sin Categoria" y "General" si
/// existen, y los nombres nuevos de la configuración quedan vacíos.
pub fn datos_cargados(
    gastos: &mut pantalla_gastos::Estado,
    configuracion: &mut configuracion::Estado,
    categorias: Vec<Categoria>,
    personas: Vec<Persona>,
)
    ensures
        *final(gastos) == (pantalla_gastos::Estado {
            categorias: final(gastos).categorias,
            personas: final(gastos).personas,
            categoria: final(gastos).categoria,
            persona: final(gastos).persona,
            ..*old(gastos)
        }),
        final(gastos).categorias@ == categorias@,
        final(gastos).personas@ == personas@,
        encontrado(categorias@, vistas_categorias(categorias@), con_nombre("Sin Categoria"@), final(gastos).categoria),
        encontrado(personas@, vistas_personas(personas@), con_nombre("General"@), final(gastos).persona),
        *final(configuracion) == (configuracion::Estado {
            categorias: categorias,
            personas: personas,
            nueva_categoria: final(configuracion).nueva_categoria,
            nueva_persona: final(configuracion).nueva_persona,
            ..*old(configuracion)
        }),
        final(configuracion).nueva_categoria@.len() == 0,
        final(configuracion).nueva_persona@.len() == 0,
{
    gastos.categorias = copiar_categorias(&categorias);
    gastos.personas = copiar_personas(&personas);
    gastos.categoria = categoria_por_nombre(&gastos.categorias, "Sin Categoria");
    gastos.persona = persona_por_nombre(&gastos.personas, "General");
    configuracion.categorias = categorias;
    configuracion.personas = personas;
    configuracion.nueva_categoria = String::new();
    configuracion.nueva_persona = String::new();
}

/// Recibir los datos del arranque: la configuración por defecto pasa a la
/// pantalla de configuración y fija el mes y el año de la tabla de gastos;
/// ambas pantallas reciben las categorías y las personas. Devuelve el mes y
/// el año con que arranca el análisis.
pub fn datos_iniciales_cargados(
    gastos: &mut pantalla_gastos::Estado,
    configuracion: &mut configuracion::Estado,
    inicial: Configuracion,
    categorias: Vec<Categoria>,
    personas: Vec<Persona>,
) -> (r: (u32, i32))
    ensures
        r == (inicial.mes_default, inicial.anio_default),
        *final(gastos) == (pantalla_gastos::Estado {
            mes: inicial.mes_default,
            anio: inicial.anio_default as u32,
            categorias: final(gastos).categorias,
            personas: final(gastos).personas,
            ..*old(gastos)
        }),
        final(gastos).categorias@ == categorias@,
        final(gastos).personas@ == personas@,
        *final(configuracion) == (configuracion::Estado {
            mes_default: inicial.mes_default,
            anio_default: inicial.anio_default,
            categorias: categorias,
            personas: personas,
            ..*old(configuracion)
        }),
{
    gastos.mes = inicial.mes_default;
    gastos.anio = inicial.anio_default as u32;
    gastos.categorias = copiar_categorias(&categorias);
    gastos.personas = copiar_personas(&personas);
    configuracion.mes_default = inicial.mes_default;
    configuracion.anio_default = inicial.anio_default;
    configuracion.categorias = categorias;
    configuracion.personas = personas;
    (inicial.mes_default, inicial.anio_default)
}

} // verus!
