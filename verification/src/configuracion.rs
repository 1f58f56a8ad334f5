//! Pantalla de configuración: su estado y cómo cambia con cada mensaje.
//! Las tareas que resultan (guardar, buscar actualizaciones) las ejecuta
//! quien llama.

use vstd::prelude::*;
use vstd::string::*;
use crate::formato::{mes_de_nombre, numero_mes};
use crate::gastos::{recortar, recortar_texto};
use crate::models::{
    Categoria, Configuracion, Persona, categoria_por_id, con_id, lema_primera_posicion_cumple, persona_por_id,
    primera_posicion, vistas_categorias, vistas_personas,
};
use crate::texto::{caracteres, texto_de};

verus! {

/// `Clone::clone` de `Result`, que usa la copia derivada de los mensajes.
/// Da un duplicado del valor: la misma variante, con su contenido copiado
/// por el `clone` de su tipo.
pub assume_specification<T, E>[ <std::result::Result<T, E> as std::clone::Clone>::clone ](resultado: &Result<T, E>) -> (copia: Result<T, E>)
    where
        E: std::clone::Clone,
        T: std::clone::Clone,
    ensures
        resultado is Ok <==> copia is Ok,
        copia is Ok ==> cloned::<T>(resultado->Ok_0, copia->Ok_0),
        copia is Err ==> cloned::<E>(resultado->Err_0, copia->Err_0),
;

/// Una eliminación pedida que espera confirmación.
#[derive(Debug, Clone)]
pub enum EliminacionPendiente {
    Categoria(Categoria),
    Persona(Persona),
}

/// El estado de la pantalla de configuración.
pub struct Estado {
    pub mes_default: u32,
    pub anio_default: i32,
    pub categorias: Vec<Categoria>,
    pub personas: Vec<Persona>,
    pub nueva_categoria: String,
    pub nueva_persona: String,
    pub actualizacion_disponible: Option<(String, Option<String>)>,
    pub buscando_actualizacion: bool,
    pub busqueda_actualizacion_realizada: bool,
    pub error_actualizacion: Option<String>,
    pub eliminacion_pendiente: Option<EliminacionPendiente>,
}

impl Default for Estado {
    fn default() -> (r: Self)
        ensures
            r.mes_default == 8,
            r.anio_default == 2026,
            r.categorias@.len() == 0,
            r.personas@.len() == 0,
            r.nueva_categoria@.len() == 0,
            r.nueva_persona@.len() == 0,
            r.actualizacion_disponible is None,
            !r.buscando_actualizacion,
            !r.busqueda_actualizacion_realizada,
            r.error_actualizacion is None,
            r.eliminacion_pendiente is None,
    {
        Estado {
            mes_default: 8,
            anio_default: 2026,
            categorias: Vec::new(),
            personas: Vec::new(),
            nueva_categoria: String::new(),
            nueva_persona: String::new(),
            actualizacion_disponible: None,
            buscando_actualizacion: false,
            busqueda_actualizacion_realizada: false,
            error_actualizacion: None,
            eliminacion_pendiente: None,
        }
    }
}

/// Los mensajes de la pantalla de configuración.
#[derive(Debug, Clone)]
pub enum Message {
    CargarDatos,
    DatosCargados(Configuracion, Vec<Categoria>, Vec<Persona>),
    MesDefaultSeleccionado(String),
    AnioDefaultSeleccionado(i32),
    GuardarConfiguracion,
    AgregarCategoria,
    SolicitarEliminarCategoria(i32),
    EliminarCategoria(i32),
    AgregarPersona,
    SolicitarEliminarPersona(i32),
    EliminarPersona(i32),
    ConfirmarEliminacion,
    CancelarEliminacion,
    CategoriaNombreCambiado(String),
    PersonaNombreCambiado(String),
    BuscarActualizacion,
    ActualizacionEncontrada(Result<Option<(String, Option<String>)>, String>),
}

/// Lo que queda por hacer tras un mensaje: nada, enviar otro mensaje, o
/// buscar una actualización.
#[derive(Debug, Clone)]
pub enum Tarea {
    Ninguna,
    Enviar(Message),
    BuscarActualizacion,
}

/// La categoría o persona pendiente de eliminar tras pedir eliminar la del id dado.
pub open spec fn pendiente_categoria(categorias: Seq<Categoria>, id: i32) -> Option<EliminacionPendiente> {
    match primera_posicion(vistas_categorias(categorias), con_id(id)) {
        Some(i) => Some(EliminacionPendiente::Categoria(categorias[i])),
        None => None,
    }
}

/// La persona pendiente de eliminar tras pedir eliminar la del id dado.
pub open spec fn pendiente_persona(personas: Seq<Persona>, id: i32) -> Option<EliminacionPendiente> {
    match primera_posicion(vistas_personas(personas), con_id(id)) {
        Some(i) => Some(EliminacionPendiente::Persona(personas[i])),
        None => None,
    }
}

/// Cómo cambia el estado con un mensaje y qué tarea resulta.
pub open spec fn transicion(e: Estado, m: Message, n: Estado, t: Tarea) -> bool {
    match m {
        Message::DatosCargados(c, cs, ps) => n == Estado {
            mes_default: c.mes_default,
            anio_default: c.anio_default,
            categorias: cs,
            personas: ps,
            ..e
        } && t == Tarea::Ninguna,
        Message::MesDefaultSeleccionado(mes) => n == Estado {
            mes_default: match mes_de_nombre(mes@) {
                Some(k) => k,
                None => e.mes_default,
            },
            ..e
        } && t == Tarea::Enviar(Message::GuardarConfiguracion),
        Message::AnioDefaultSeleccionado(anio) => n == Estado { anio_default: anio, ..e }
            && t == Tarea::Enviar(Message::GuardarConfiguracion),
        Message::AgregarCategoria => n == Estado { nueva_categoria: n.nueva_categoria, ..e }
            && n.nueva_categoria@.len() == 0 && t == Tarea::Ninguna,
        Message::AgregarPersona => n == Estado { nueva_persona: n.nueva_persona, ..e }
            && n.nueva_persona@.len() == 0 && t == Tarea::Ninguna,
        Message::SolicitarEliminarCategoria(id) => n == Estado {
            eliminacion_pendiente: pendiente_categoria(e.categorias@, id),
            ..e
        } && t == Tarea::Ninguna,
        Message::SolicitarEliminarPersona(id) => n == Estado {
            eliminacion_pendiente: pendiente_persona(e.personas@, id),
            ..e
        } && t == Tarea::Ninguna,
        Message::CancelarEliminacion => n == Estado { eliminacion_pendiente: None, ..e }
            && t == Tarea::Ninguna,
        Message::ConfirmarEliminacion => n == Estado { eliminacion_pendiente: None, ..e }
            && t == match e.eliminacion_pendiente {
                Some(EliminacionPendiente::Categoria(c)) => Tarea::Enviar(Message::EliminarCategoria(c.id)),
                Some(EliminacionPendiente::Persona(p)) => Tarea::Enviar(Message::EliminarPersona(p.id)),
                None => Tarea::Ninguna,
            },
        Message::CategoriaNombreCambiado(nombre) => n == Estado { nueva_categoria: nombre, ..e }
            && t == Tarea::Ninguna,
        Message::PersonaNombreCambiado(nombre) => n == Estado { nueva_persona: nombre, ..e }
            && t == Tarea::Ninguna,
        Message::BuscarActualizacion => n == Estado {
            buscando_actualizacion: true,
            busqueda_actualizacion_realizada: false,
            actualizacion_disponible: None,
            error_actualizacion: None,
            ..e
        } && t == Tarea::BuscarActualizacion,
        Message::ActualizacionEncontrada(resultado) => t == Tarea::Ninguna && match resultado {
            Ok(a) => n == Estado {
                buscando_actualizacion: false,
                busqueda_actualizacion_realizada: true,
                actualizacion_disponible: a,
                ..e
            },
            Err(error) => n == Estado {
                buscando_actualizacion: false,
                busqueda_actualizacion_realizada: true,
                error_actualizacion: Some(error),
                ..e
            },
        },
        Message::CargarDatos | Message::GuardarConfiguracion | Message::EliminarCategoria(_)
        | Message::EliminarPersona(_) => n == e && t == Tarea::Ninguna,
    }
}

/// Ley: pedir eliminar la categoría `id` y confirmarlo envía la eliminación
/// de esa categoría si existe, y nada si no existe; el estado queda como
/// estaba, sin eliminación pendiente.
pub proof fn ley_confirmar_eliminacion_categoria(e: Estado, id: i32, n1: Estado, t1: Tarea, n2: Estado, t2: Tarea)
    requires
        transicion(e, Message::SolicitarEliminarCategoria(id), n1, t1),
        transicion(n1, Message::ConfirmarEliminacion, n2, t2),
    ensures
        n2 == (Estado { eliminacion_pendiente: None, ..e }),
        t2 == if exists|i: int| 0 <= i < e.categorias@.len() && (#[trigger] e.categorias@[i]).id == id {
            Tarea::Enviar(Message::EliminarCategoria(id))
        } else {
            Tarea::Ninguna
        },
{
    let v = vistas_categorias(e.categorias@);
    lema_primera_posicion_cumple(v, con_id(id));
    if exists|i: int| 0 <= i < e.categorias@.len() && (#[trigger] e.categorias@[i]).id == id {
        let i = choose|i: int| 0 <= i < e.categorias@.len() && (#[trigger] e.categorias@[i]).id == id;
        assert(con_id(id)(v[i]));
    } else {
        assert forall|i: int| 0 <= i < v.len() implies !con_id(id)(#[trigger] v[i]) by {
            assert(v[i].0 == e.categorias@[i].id);
        }
    }
}

/// Ley: pedir eliminar la persona `id` y confirmarlo envía la eliminación
/// de esa persona si existe, y nada si no existe; el estado queda como
/// estaba, sin eliminación pendiente.
pub proof fn ley_confirmar_eliminacion_persona(e: Estado, id: i32, n1: Estado, t1: Tarea, n2: Estado, t2: Tarea)
    requires
        transicion(e, Message::SolicitarEliminarPersona(id), n1, t1),
        transicion(n1, Message::ConfirmarEliminacion, n2, t2),
    ensures
        n2 == (Estado { eliminacion_pendiente: None, ..e }),
        t2 == if exists|i: int| 0 <= i < e.personas@.len() && (#[trigger] e.personas@[i]).id == id {
            Tarea::Enviar(Message::EliminarPersona(id))
        } else {
            Tarea::Ninguna
        },
{
    let v = vistas_personas(e.personas@);
    lema_primera_posicion_cumple(v, con_id(id));
    if exists|i: int| 0 <= i < e.personas@.len() && (#[trigger] e.personas@[i]).id == id {
        let i = choose|i: int| 0 <= i < e.personas@.len() && (#[trigger] e.personas@[i]).id == id;
        assert(con_id(id)(v[i]));
    } else {
        assert forall|i: int| 0 <= i < v.len() implies !con_id(id)(#[trigger] v[i]) by {
            assert(v[i].0 == e.personas@[i].id);
        }
    }
}

/// Aplica un mensaje al estado de la pantalla de configuración y da la
/// tarea que resulta.
pub fn update(estado: &mut Estado, mensaje: Message) -> (t: Tarea)
    ensures
        transicion(*old(estado), mensaje, *final(estado), t),
{
    match mensaje {
        Message::CargarDatos => Tarea::Ninguna,
        Message::DatosCargados(configuracion, categorias, personas) => {
            estado.mes_default = configuracion.mes_default;
            estado.anio_default = configuracion.anio_default;
            estado.categorias = categorias;
            estado.personas = personas;
            Tarea::Ninguna
        },
        Message::MesDefaultSeleccionado(mes) => {
            if let Some(numero) = numero_mes(mes.as_str()) {
                estado.mes_default = numero;
            }
            Tarea::Enviar(Message::GuardarConfiguracion)
        },
        Message::AnioDefaultSeleccionado(anio) => {
            estado.anio_default = anio;
            Tarea::Enviar(Message::GuardarConfiguracion)
        },
        Message::GuardarConfiguracion => Tarea::Ninguna,
        Message::AgregarCategoria => {
            estado.nueva_categoria = String::new();
            Tarea::Ninguna
        },
        Message::SolicitarEliminarCategoria(id) => {
            let encontrada = categoria_por_id(&estado.categorias, id);
            estado.eliminacion_pendiente = match encontrada {
                Some(c) => Some(EliminacionPendiente::Categoria(c)),
                None => None,
            };
            Tarea::Ninguna
        },
        Message::AgregarPersona => {
            estado.nueva_persona = String::new();
            Tarea::Ninguna
        },
        Message::SolicitarEliminarPersona(id) => {
            let encontrada = persona_por_id(&estado.personas, id);
            estado.eliminacion_pendiente = match encontrada {
                Some(p) => Some(EliminacionPendiente::Persona(p)),
                None => None,
            };
            Tarea::Ninguna
        },
        Message::CancelarEliminacion => {
            estado.eliminacion_pendiente = None;
            Tarea::Ninguna
        },
        Message::ConfirmarEliminacion => {
            let pendiente = estado.eliminacion_pendiente.take();
            match pendiente {
                Some(EliminacionPendiente::Categoria(categoria)) => {
                    Tarea::Enviar(Message::EliminarCategoria(categoria.id))
                },
                Some(EliminacionPendiente::Persona(persona)) => {
                    Tarea::Enviar(Message::EliminarPersona(persona.id))
                },
                None => Tarea::Ninguna,
            }
        },
        Message::EliminarCategoria(_) | Message::EliminarPersona(_) => Tarea::Ninguna,
        Message::CategoriaNombreCambiado(nombre) => {
            estado.nueva_categoria = nombre;
            Tarea::Ninguna
        },
        Message::PersonaNombreCambiado(nombre) => {
            estado.nueva_persona = nombre;
            Tarea::Ninguna
        },
        Message::BuscarActualizacion => {
            estado.buscando_actualizacion = true;
            estado.busqueda_actualizacion_realizada = false;
            estado.actualizacion_disponible = None;
            estado.error_actualizacion = None;
            Tarea::BuscarActualizacion
        },
        Message::ActualizacionEncontrada(resultado) => {
            estado.buscando_actualizacion = false;
            estado.busqueda_actualizacion_realizada = true;
            match resultado {
                Ok(actualizacion) => {
                    estado.actualizacion_disponible = actualizacion;
                },
                Err(error) => {
                    estado.error_actualizacion = Some(error);
                },
            }
            Tarea::Ninguna
        },
    }
}

/// El nombre a agregar como categoría o persona: el texto escrito sin
/// espacios en los extremos, o `None` si queda vacío.
pub open spec fn nombre_nuevo(escrito: Seq<char>) -> Option<Seq<char>> {
    if recortar(escrito).len() == 0 {
        None
    } else {
        Some(recortar(escrito))
    }
}

/// El nombre a agregar como categoría o persona: el texto escrito sin
/// espacios en los extremos, o `None` si queda vacío (en ese caso no se
/// agrega nada).
pub fn nombre_a_agregar(escrito: &str) -> (r: Option<String>)
    ensures
        match (r, nombre_nuevo(escrito@)) {
            (Some(x), Some(y)) => x@ == y,
            (None, None) => true,
            _ => false,
        },
{
    let recortado = recortar_texto(&caracteres(escrito));
    if recortado.len() == 0 {
        None
    } else {
        Some(texto_de(&recortado))
    }
}

} // verus!
