//! Pantalla de gastos: el estado del formulario y de la tabla, y cómo
//! cambia con cada mensaje. La lista de gastos la guarda quien llama;
//! aquí sólo se decide qué hacer y qué tarea lanzar.

use vstd::prelude::*;
use vstd::string::*;
use crate::fecha::{
    actualizar_fecha, dias_en_mes, fecha_en_texto, formatear_fecha, sincronizar_selectores_fecha, texto_fecha,
};
use crate::formato::{lema_mes_en_rango, mes_de_nombre, numero_mes};
use crate::gastos::{
    ColumnaOrden, DireccionOrden, EstadoMonto, ModoFormulario, error_formulario, orden_tras_pulsar, ordenar_por, validar,
};
use crate::models::{
    Categoria, Persona, categoria_por_nombre, con_nombre, encontrado, lema_primera_posicion_cumple,
    persona_por_nombre, vistas_categorias, vistas_personas,
};

verus! {

/// La fecha de hoy: su texto `DD-MM-AAAA` y su día, mes y año.
pub struct Hoy {
    pub texto: String,
    pub dia: u32,
    pub mes: u32,
    pub anio: u32,
}

/// Indica si el texto de `hoy` es su día, mes y año escritos como `DD-MM-AAAA`.
pub open spec fn hoy_coherente(hoy: Hoy) -> bool {
    hoy.texto@ == texto_fecha(hoy.dia as nat, hoy.mes as nat, hoy.anio as nat)
}

/// La fecha de hoy a partir de su día, mes y año, con su texto `DD-MM-AAAA`.
pub fn hoy_desde(dia: u32, mes: u32, anio: u32) -> (h: Hoy)
    ensures
        h.dia == dia,
        h.mes == mes,
        h.anio == anio,
        hoy_coherente(h),
{
    Hoy { texto: formatear_fecha(dia, mes, anio), dia, mes, anio }
}

/// El estado de la pantalla de gastos, salvo la lista de gastos.
pub struct Estado {
    pub fecha: String,
    pub monto: String,
    pub descripcion: String,
    pub categoria: Option<Categoria>,
    pub persona: Option<Persona>,
    pub categorias: Vec<Categoria>,
    pub personas: Vec<Persona>,
    pub gasto_seleccionado: Option<i32>,
    pub mes: u32,
    pub anio: u32,
    pub error: Option<String>,
    pub modo_formulario: ModoFormulario,
    pub columna_orden: ColumnaOrden,
    pub direccion_orden: DireccionOrden,
    pub dia: u32,
    pub mes_fecha: u32,
    pub anio_fecha: u32,
}

/// Los mensajes de la pantalla de gastos que no necesitan la lista de gastos.
#[derive(Debug, Clone)]
pub enum Message {
    DiaSeleccionado(u32),
    MesFechaSeleccionado(String),
    AnioSeleccionado(u32),
    MontoCambiado(String),
    DescripcionCambiada(String),
    CategoriaSeleccionada(Categoria),
    PersonaSeleccionada(Persona),
    MostrarFormulario,
    CerrarFormulario,
    SolicitarEliminarGasto,
    ConfirmarEliminarGasto,
    CancelarEliminarGasto,
    DeseleccionarGasto,
    GastoAgregado(Result<(), String>),
    GastoEliminado(Result<(), String>),
    MesSeleccionado(String),
    GastoSeleccionado(i32),
    GastoEditado(Result<(), String>),
    OrdenarPor(ColumnaOrden),
}

/// Lo que queda por hacer tras un mensaje.
#[derive(Debug, Clone, Copy, PartialEq, Eq, Structural)]
pub enum Tarea {
    Ninguna,
    EliminarGasto(i32),
    CargarGastos,
}

/// Un gasto listo para guardarse: descripción, fecha, categoría y persona.
pub struct Alta {
    pub descripcion: String,
    pub fecha: String,
    pub categoria_id: i32,
    pub persona_id: i32,
}

/// El formulario vuelve a su estado inicial: la fecha de hoy, monto y
/// descripción vacíos, y la categoría "Sin Categoria" y la persona
/// "General" si existen.
pub open spec fn reiniciado(e: Estado, hoy: Hoy, n: Estado) -> bool {
    &&& n == Estado {
        fecha: hoy.texto,
        dia: hoy.dia,
        mes_fecha: hoy.mes,
        anio_fecha: hoy.anio,
        monto: n.monto,
        descripcion: n.descripcion,
        categoria: n.categoria,
        persona: n.persona,
        ..e
    }
    &&& n.monto@.len() == 0
    &&& n.descripcion@.len() == 0
    &&& encontrado(e.categorias@, vistas_categorias(e.categorias@), con_nombre("Sin Categoria"@), n.categoria)
    &&& encontrado(e.personas@, vistas_personas(e.personas@), con_nombre("General"@), n.persona)
}

/// El formulario queda vacío: sin descripción, monto, fecha, categoría ni persona.
pub open spec fn vaciado(e: Estado, n: Estado) -> bool {
    &&& n == Estado {
        descripcion: n.descripcion,
        monto: n.monto,
        fecha: n.fecha,
        categoria: None,
        persona: None,
        ..e
    }
    &&& n.descripcion@.len() == 0
    &&& n.monto@.len() == 0
    &&& n.fecha@.len() == 0
}

/// El día y la fecha del formulario tras elegir día, mes o año: el día se
/// ajusta al último del mes si lo excede.
pub open spec fn fecha_ajustada(e: Estado, n: Estado) -> bool {
    let ultimo = dias_en_mes(e.mes_fecha as int, e.anio_fecha as int);
    &&& n == Estado { dia: n.dia, fecha: n.fecha, ..e }
    &&& n.dia == if e.dia <= ultimo { e.dia as int } else { ultimo }
    &&& n.fecha@ == texto_fecha(n.dia as nat, e.mes_fecha as nat, e.anio_fecha as nat)
}

/// Cómo cambia el estado con un mensaje y qué tarea resulta.
pub open spec fn transicion(e: Estado, m: Message, hoy: Hoy, n: Estado, t: Tarea) -> bool {
    match m {
        Message::MontoCambiado(x) => n == Estado { monto: x, ..e } && t == Tarea::Ninguna,
        Message::DescripcionCambiada(x) => n == Estado { descripcion: x, ..e } && t == Tarea::Ninguna,
        Message::CategoriaSeleccionada(c) => n == Estado { categoria: Some(c), ..e } && t == Tarea::Ninguna,
        Message::PersonaSeleccionada(p) => n == Estado { persona: Some(p), ..e } && t == Tarea::Ninguna,
        Message::GastoAgregado(Ok(())) => reiniciado(
            Estado { error: None, modo_formulario: ModoFormulario::Cerrado, ..e },
            hoy,
            n,
        ) && t == Tarea::CargarGastos,
        Message::GastoAgregado(Err(x)) => n == Estado { error: Some(x), ..e } && t == Tarea::Ninguna,
        Message::MesSeleccionado(x) => t == Tarea::Ninguna && match mes_de_nombre(x@) {
            Some(k) => n == Estado { mes: k, gasto_seleccionado: None, ..e },
            None => n == e,
        },
        Message::GastoSeleccionado(id) => n == Estado { gasto_seleccionado: Some(id), ..e } && t == Tarea::Ninguna,
        Message::DeseleccionarGasto => n == Estado { gasto_seleccionado: None, ..e } && t == Tarea::Ninguna,
        Message::MostrarFormulario => reiniciado(
            Estado { modo_formulario: ModoFormulario::Nuevo, error: None, ..e },
            hoy,
            n,
        ) && t == Tarea::Ninguna,
        Message::CerrarFormulario => vaciado(
            Estado { modo_formulario: ModoFormulario::Cerrado, error: None, ..e },
            n,
        ) && t == Tarea::Ninguna,
        Message::SolicitarEliminarGasto => t == Tarea::Ninguna && if e.gasto_seleccionado is Some {
            n == Estado { modo_formulario: ModoFormulario::ConfirmarEliminacion, ..e }
        } else {
            n == e
        },
        Message::CancelarEliminarGasto => n == Estado { modo_formulario: ModoFormulario::Cerrado, ..e }
            && t == Tarea::Ninguna,
        Message::ConfirmarEliminarGasto => n == e && t == match e.gasto_seleccionado {
            Some(id) => Tarea::EliminarGasto(id),
            None => Tarea::Ninguna,
        },
        Message::GastoEliminado(Ok(())) => n == Estado { error: None, gasto_seleccionado: None, ..e }
            && t == Tarea::CargarGastos,
        Message::GastoEliminado(Err(x)) => n == Estado { error: Some(x), ..e } && t == Tarea::Ninguna,
        Message::GastoEditado(Ok(())) => vaciado(
            Estado {
                error: None,
                gasto_seleccionado: None,
                modo_formulario: ModoFormulario::Cerrado,
                ..e
            },
            n,
        ) && t == Tarea::CargarGastos,
        Message::GastoEditado(Err(x)) => n == Estado { error: Some(x), ..e } && t == Tarea::Ninguna,
        Message::OrdenarPor(c) => t == Tarea::Ninguna && n == Estado {
            columna_orden: orden_tras_pulsar(e.columna_orden, e.direccion_orden, c).0,
            direccion_orden: orden_tras_pulsar(e.columna_orden, e.direccion_orden, c).1,
            ..e
        },
        Message::DiaSeleccionado(d) => fecha_ajustada(Estado { dia: d, ..e }, n) && t == Tarea::Ninguna,
        Message::MesFechaSeleccionado(x) => t == Tarea::Ninguna && match mes_de_nombre(x@) {
            Some(k) => fecha_ajustada(Estado { mes_fecha: k, ..e }, n),
            None => n == e,
        },
        Message::AnioSeleccionado(a) => fecha_ajustada(Estado { anio_fecha: a, ..e }, n) && t == Tarea::Ninguna,
    }
}

/// Los selectores de fecha del formulario marcan una fecha que existe: mes
/// entre 1 y 12 y día entre 1 y los días de ese mes.
pub open spec fn selectores_validos(e: Estado) -> bool {
    1 <= e.mes_fecha <= 12 && 1 <= e.dia <= dias_en_mes(e.mes_fecha as int, e.anio_fecha as int)
}

/// Ley: ningún mensaje saca a los selectores de fecha de una fecha que
/// existe, siempre que la fecha de hoy exista y que el día elegido no sea
/// cero. Al elegir día, año o un mes que existe, el texto de la fecha es
/// el de los selectores; también al reiniciar el formulario (al abrirlo o
/// tras agregar un gasto) si el texto de hoy es el de su día, mes y año.
pub proof fn ley_selectores_validos(e: Estado, m: Message, hoy: Hoy, n: Estado, t: Tarea)
    requires
        selectores_validos(e),
        1 <= hoy.mes <= 12,
        1 <= hoy.dia <= dias_en_mes(hoy.mes as int, hoy.anio as int),
        m matches Message::DiaSeleccionado(d) ==> d >= 1,
        transicion(e, m, hoy, n, t),
    ensures
        selectores_validos(n),
        (m is DiaSeleccionado || m is AnioSeleccionado
            || (m matches Message::MesFechaSeleccionado(x) && mes_de_nombre(x@) is Some))
            ==> n.fecha@ == texto_fecha(n.dia as nat, n.mes_fecha as nat, n.anio_fecha as nat),
        hoy_coherente(hoy) && (m is MostrarFormulario || m matches Message::GastoAgregado(Ok(_)))
            ==> n.fecha@ == texto_fecha(n.dia as nat, n.mes_fecha as nat, n.anio_fecha as nat),
{
    if let Message::MesFechaSeleccionado(x) = m {
        lema_mes_en_rango(x@, 1);
    }
}

/// Vuelve el formulario a su estado inicial con la fecha de hoy.
pub fn reiniciar_formulario(estado: &mut Estado, hoy: &Hoy)
    ensures
        reiniciado(*old(estado), *hoy, *final(estado)),
{
    estado.fecha = hoy.texto.clone();
    estado.dia = hoy.dia;
    estado.mes_fecha = hoy.mes;
    estado.anio_fecha = hoy.anio;
    estado.monto = String::new();
    estado.descripcion = String::new();
    estado.categoria = categoria_por_nombre(&estado.categorias, "Sin Categoria");
    estado.persona = persona_por_nombre(&estado.personas, "General");
}

/// Vacía el formulario.
fn vaciar_formulario(estado: &mut Estado)
    ensures
        vaciado(*old(estado), *final(estado)),
{
    estado.descripcion = String::new();
    estado.monto = String::new();
    estado.fecha = String::new();
    estado.categoria = None;
    estado.persona = None;
}

/// Ajusta el día al mes elegido y reescribe la fecha.
fn ajustar_fecha(estado: &mut Estado)
    ensures
        fecha_ajustada(*old(estado), *final(estado)),
{
    let (dia, fecha) = actualizar_fecha(estado.dia, estado.mes_fecha, estado.anio_fecha);
    estado.dia = dia;
    estado.fecha = fecha;
}

/// Aplica un mensaje al estado de la pantalla de gastos y da la tarea que
/// resulta; `hoy` es la fecha con que se reinicia el formulario.
pub fn update(estado: &mut Estado, mensaje: Message, hoy: &Hoy) -> (t: Tarea)
    ensures
        transicion(*old(estado), mensaje, *hoy, *final(estado), t),
{
    match mensaje {
        Message::MontoCambiado(monto) => {
            estado.monto = monto;
        },
        Message::DescripcionCambiada(descripcion) => {
            estado.descripcion = descripcion;
        },
        Message::CategoriaSeleccionada(categoria) => {
            estado.categoria = Some(categoria);
        },
        Message::PersonaSeleccionada(persona) => {
            estado.persona = Some(persona);
        },
        Message::GastoAgregado(resultado) => {
            match resultado {
                Ok(()) => {
                    estado.error = None;
                    estado.modo_formulario = ModoFormulario::Cerrado;
                    reiniciar_formulario(estado, hoy);
                    return Tarea::CargarGastos;
                },
                Err(error) => {
                    estado.error = Some(error);
                },
            }
        },
        Message::MesSeleccionado(mes) => {
            if let Some(numero) = numero_mes(mes.as_str()) {
                estado.mes = numero;
                estado.gasto_seleccionado = None;
            }
        },
        Message::GastoSeleccionado(id) => {
            estado.gasto_seleccionado = Some(id);
        },
        Message::DeseleccionarGasto => {
            estado.gasto_seleccionado = None;
        },
        Message::MostrarFormulario => {
            estado.modo_formulario = ModoFormulario::Nuevo;
            estado.error = None;
            reiniciar_formulario(estado, hoy);
        },
        Message::CerrarFormulario => {
            estado.modo_formulario = ModoFormulario::Cerrado;
            estado.error = None;
            vaciar_formulario(estado);
        },
        Message::SolicitarEliminarGasto => {
            if estado.gasto_seleccionado.is_some() {
                estado.modo_formulario = ModoFormulario::ConfirmarEliminacion;
            }
        },
        Message::CancelarEliminarGasto => {
            estado.modo_formulario = ModoFormulario::Cerrado;
        },
        Message::ConfirmarEliminarGasto => {
            if let Some(id) = estado.gasto_seleccionado {
                return Tarea::EliminarGasto(id);
            }
        },
        Message::GastoEliminado(resultado) => {
            match resultado {
                Ok(()) => {
                    estado.error = None;
                    estado.gasto_seleccionado = None;
                    return Tarea::CargarGastos;
                },
                Err(error) => {
                    estado.error = Some(error);
                },
            }
        },
        Message::GastoEditado(resultado) => {
            match resultado {
                Ok(()) => {
                    estado.error = None;
                    estado.gasto_seleccionado = None;
                    estado.modo_formulario = ModoFormulario::Cerrado;
                    vaciar_formulario(estado);
                    return Tarea::CargarGastos;
                },
                Err(error) => {
                    estado.error = Some(error);
                },
            }
        },
        Message::OrdenarPor(columna) => {
            let (c, d) = ordenar_por(estado.columna_orden, estado.direccion_orden, columna);
            estado.columna_orden = c;
            estado.direccion_orden = d;
        },
        Message::DiaSeleccionado(dia) => {
            estado.dia = dia;
            ajustar_fecha(estado);
        },
        Message::MesFechaSeleccionado(mes) => {
            if let Some(numero) = numero_mes(mes.as_str()) {
                estado.mes_fecha = numero;
                ajustar_fecha(estado);
            }
        },
        Message::AnioSeleccionado(anio) => {
            estado.anio_fecha = anio;
            ajustar_fecha(estado);
        },
    }
    Tarea::Ninguna
}

/// El error del formulario del estado, o `None` si es válido.
pub open spec fn error_de(e: Estado, estado_monto: EstadoMonto) -> Option<Seq<char>> {
    error_formulario(e.fecha@, e.monto@, estado_monto, e.descripcion@, e.categoria is Some, e.persona is Some)
}

/// El gasto del formulario, listo para guardar.
pub open spec fn alta_de(e: Estado, a: Alta) -> bool {
    &&& a.descripcion == e.descripcion
    &&& a.fecha == e.fecha
    &&& e.categoria matches Some(c) && a.categoria_id == c.id
    &&& e.persona matches Some(p) && a.persona_id == p.id
}

/// El estado sólo cambia en su error, que pasa a ser `m`.
pub open spec fn con_error(e: Estado, m: Seq<char>, n: Estado) -> bool {
    &&& n.error matches Some(x) && x@ == m
    &&& n == Estado { error: n.error, ..e }
}

/// `r` es el gasto del formulario de `e`, listo para guardar.
pub open spec fn alta_lista(e: Estado, r: Option<Alta>) -> bool {
    r matches Some(a) && alta_de(e, a)
}

/// Valida el formulario y arma el gasto a guardar.
fn armar_alta(estado: &mut Estado, estado_monto: EstadoMonto) -> (r: Option<Alta>)
    ensures
        match error_de(*old(estado), estado_monto) {
            Some(m) => r is None && con_error(*old(estado), m, *final(estado)),
            None => *final(estado) == Estado { error: None, ..*old(estado) } && alta_lista(*old(estado), r),
        },
{
    let resultado = validar(
        estado.fecha.as_str(),
        estado.monto.as_str(),
        estado_monto,
        estado.descripcion.as_str(),
        estado.categoria.is_some(),
        estado.persona.is_some(),
    );
    match resultado {
        Ok(()) => {
            estado.error = None;
            let categoria_id = match &estado.categoria {
                Some(c) => c.id,
                None => 0,
            };
            let persona_id = match &estado.persona {
                Some(p) => p.id,
                None => 0,
            };
            Some(Alta {
                descripcion: estado.descripcion.clone(),
                fecha: estado.fecha.clone(),
                categoria_id,
                persona_id,
            })
        },
        Err(error) => {
            estado.error = Some(error);
            None
        },
    }
}

/// Pulsar "Agregar": si el formulario es válido, borra el error y da el
/// gasto a guardar; si no, deja el error en el estado. `estado_monto` es
/// cómo resultó leer el monto como número.
pub fn preparar_alta(estado: &mut Estado, estado_monto: EstadoMonto) -> (r: Option<Alta>)
    ensures
        match error_de(*old(estado), estado_monto) {
            Some(m) => r is None && con_error(*old(estado), m, *final(estado)),
            None => *final(estado) == Estado { error: None, ..*old(estado) } && alta_lista(*old(estado), r),
        },
{
    armar_alta(estado, estado_monto)
}

/// Cómo queda el estado y qué se guarda al pulsar "Guardar" en la edición.
pub open spec fn edicion_preparada(e: Estado, estado_monto: EstadoMonto, n: Estado, r: Option<(i32, Alta)>) -> bool {
    match error_de(e, estado_monto) {
        Some(m) => r is None && con_error(e, m, n),
        None => n == Estado { error: None, ..e } && match e.modo_formulario {
            ModoFormulario::Editar(id) => (r matches Some((i, a)) && i == id && alta_de(e, a)),
            _ => r is None,
        },
    }
}

/// Pulsar "Guardar" al editar: como "Agregar", pero el gasto sólo se
/// guarda si el formulario edita un gasto, cuyo id se devuelve.
pub fn preparar_edicion(estado: &mut Estado, estado_monto: EstadoMonto) -> (r: Option<(i32, Alta)>)
    ensures
        edicion_preparada(*old(estado), estado_monto, *final(estado), r),
{
    let alta = armar_alta(estado, estado_monto);
    match alta {
        Some(a) => match estado.modo_formulario {
            ModoFormulario::Editar(id) => Some((id, a)),
            _ => None,
        },
        None => None,
    }
}

/// Cómo queda el estado al abrir la edición de un gasto.
pub open spec fn edicion_cargada(
    e: Estado,
    id: i32,
    descripcion: String,
    monto: String,
    fecha: String,
    categoria: Seq<char>,
    persona: Seq<char>,
    n: Estado,
) -> bool {
    match fecha_en_texto(fecha@) {
        None => con_error(
            Estado { descripcion: descripcion, monto: monto, fecha: fecha, ..e },
            "La fecha del gasto no es válida"@,
            n,
        ),
        Some((d, m, a)) => {
            &&& n == Estado {
                descripcion: descripcion,
                monto: monto,
                fecha: fecha,
                dia: d,
                mes_fecha: m,
                anio_fecha: a as u32,
                categoria: n.categoria,
                persona: n.persona,
                error: None,
                modo_formulario: ModoFormulario::Editar(id),
                ..e
            }
            &&& encontrado(e.categorias@, vistas_categorias(e.categorias@), con_nombre(categoria), n.categoria)
            &&& encontrado(e.personas@, vistas_personas(e.personas@), con_nombre(persona), n.persona)
        },
    }
}

/// Abre la edición del gasto `id` con sus datos: descripción, monto escrito,
/// fecha y los nombres de su categoría y su persona. Si la fecha no se
/// puede leer, deja el error y no abre el formulario.
pub fn cargar_edicion(
    estado: &mut Estado,
    id: i32,
    descripcion: String,
    monto: String,
    fecha: String,
    categoria: &str,
    persona: &str,
)
    ensures
        edicion_cargada(*old(estado), id, descripcion, monto, fecha, categoria@, persona@, *final(estado)),
{
    let leida = sincronizar_selectores_fecha(fecha.as_str());
    estado.descripcion = descripcion;
    estado.monto = monto;
    estado.fecha = fecha;
    match leida {
        Err(error) => {
            estado.error = Some(error);
        },
        Ok((d, m, a)) => {
            estado.dia = d;
            estado.mes_fecha = m;
            estado.anio_fecha = a;
            estado.categoria = categoria_por_nombre(&estado.categorias, categoria);
            estado.persona = persona_por_nombre(&estado.personas, persona);
            estado.error = None;
            estado.modo_formulario = ModoFormulario::Editar(id);
        },
    }
}

/// Ley: abrir la edición de un gasto cuya fecha se lee y guardarla sin
/// cambios, con el formulario válido, guarda ese mismo gasto: su id, su
/// descripción, su fecha y la categoría y la persona encontradas por sus
/// nombres.
pub proof fn ley_editar_sin_cambios(
    e: Estado,
    id: i32,
    descripcion: String,
    monto: String,
    fecha: String,
    categoria: Seq<char>,
    persona: Seq<char>,
    n: Estado,
    estado_monto: EstadoMonto,
    n2: Estado,
    r: Option<(i32, Alta)>,
)
    requires
        fecha_en_texto(fecha@) is Some,
        edicion_cargada(e, id, descripcion, monto, fecha, categoria, persona, n),
        error_de(n, estado_monto) is None,
        edicion_preparada(n, estado_monto, n2, r),
    ensures
        r matches Some((i, a)) && i == id && a.descripcion == descripcion && a.fecha == fecha && ({
            &&& n.categoria matches Some(c) && c.nombre@ == categoria && a.categoria_id == c.id
            &&& n.persona matches Some(q) && q.nombre@ == persona && a.persona_id == q.id
        }),
        n2.modo_formulario == ModoFormulario::Editar(id),
        n2.error is None,
{
    let v = vistas_categorias(e.categorias@);
    let w = vistas_personas(e.personas@);
    lema_primera_posicion_cumple(v, con_nombre(categoria));
    lema_primera_posicion_cumple(w, con_nombre(persona));
}

} // verus!
