use derroche::aplicacion::{copiar_categorias, datos_cargados, datos_iniciales_cargados, mostrar_gastos};
use derroche::configuracion::{nombre_a_agregar, update, EliminacionPendiente, Estado, Message, Tarea};
use derroche::gastos::{ColumnaOrden, DireccionOrden, ModoFormulario};
use derroche::models::{categoria_por_id, persona_por_nombre, Categoria, Configuracion, Persona};
use derroche::pantalla_gastos;
use derroche::repository::{comprobar_eliminar_categoria, comprobar_eliminar_persona};

fn categoria(id: i32, nombre: &str) -> Categoria {
    Categoria { id, nombre: nombre.to_string() }
}

fn persona(id: i32, nombre: &str) -> Persona {
    Persona { id, nombre: nombre.to_string() }
}

fn estado_con_datos() -> Estado {
    let mut estado = Estado::default();
    estado.categorias = vec![categoria(1, "Sin Categoria"), categoria(2, "Comida"), categoria(2, "Otra")];
    estado.personas = vec![persona(1, "General"), persona(5, "Ana")];
    estado
}

#[test]
fn arranca_con_la_configuracion_por_defecto() {
    let estado = Estado::default();
    assert_eq!((estado.mes_default, estado.anio_default), (8, 2026));
    assert!(estado.categorias.is_empty());
    assert!(estado.nueva_categoria.is_empty());
    assert!(!estado.buscando_actualizacion);
    assert!(estado.eliminacion_pendiente.is_none());
}

#[test]
fn cambiar_el_periodo_pide_guardarlo() {
    let mut estado = Estado::default();
    let tarea = update(&mut estado, Message::MesDefaultSeleccionado("Marzo".to_string()));
    assert_eq!(estado.mes_default, 3);
    assert!(matches!(tarea, Tarea::Enviar(Message::GuardarConfiguracion)));

    let tarea = update(&mut estado, Message::MesDefaultSeleccionado("Nada".to_string()));
    assert_eq!(estado.mes_default, 3);
    assert!(matches!(tarea, Tarea::Enviar(Message::GuardarConfiguracion)));

    let tarea = update(&mut estado, Message::AnioDefaultSeleccionado(2030));
    assert_eq!(estado.anio_default, 2030);
    assert!(matches!(tarea, Tarea::Enviar(Message::GuardarConfiguracion)));

    assert!(matches!(update(&mut estado, Message::GuardarConfiguracion), Tarea::Ninguna));
    assert!(matches!(update(&mut estado, Message::CargarDatos), Tarea::Ninguna));
}

#[test]
fn recibe_los_datos_cargados() {
    let mut estado = Estado::default();
    let tarea = update(
        &mut estado,
        Message::DatosCargados(
            Configuracion { mes_default: 2, anio_default: 2024 },
            vec![categoria(1, "Sin Categoria")],
            vec![persona(1, "General")],
        ),
    );
    assert!(matches!(tarea, Tarea::Ninguna));
    assert_eq!((estado.mes_default, estado.anio_default), (2, 2024));
    assert_eq!(estado.categorias, vec![categoria(1, "Sin Categoria")]);
    assert_eq!(estado.personas, vec![persona(1, "General")]);
}

#[test]
fn confirma_antes_de_eliminar() {
    let mut estado = estado_con_datos();
    update(&mut estado, Message::SolicitarEliminarCategoria(2));
    assert!(matches!(
        &estado.eliminacion_pendiente,
        Some(EliminacionPendiente::Categoria(c)) if c.nombre == "Comida"
    ));
    let tarea = update(&mut estado, Message::ConfirmarEliminacion);
    assert!(matches!(tarea, Tarea::Enviar(Message::EliminarCategoria(2))));
    assert!(estado.eliminacion_pendiente.is_none());

    update(&mut estado, Message::SolicitarEliminarPersona(5));
    assert!(matches!(
        &estado.eliminacion_pendiente,
        Some(EliminacionPendiente::Persona(p)) if p.nombre == "Ana"
    ));
    update(&mut estado, Message::CancelarEliminacion);
    assert!(estado.eliminacion_pendiente.is_none());
    assert!(matches!(update(&mut estado, Message::ConfirmarEliminacion), Tarea::Ninguna));

    update(&mut estado, Message::SolicitarEliminarPersona(9));
    assert!(estado.eliminacion_pendiente.is_none());

    update(&mut estado, Message::SolicitarEliminarPersona(5));
    let tarea = update(&mut estado, Message::ConfirmarEliminacion);
    assert!(matches!(tarea, Tarea::Enviar(Message::EliminarPersona(5))));
    assert!(matches!(update(&mut estado, Message::EliminarPersona(5)), Tarea::Ninguna));
}

#[test]
fn escribe_y_limpia_nombres_nuevos() {
    let mut estado = Estado::default();
    update(&mut estado, Message::CategoriaNombreCambiado("Viajes".to_string()));
    update(&mut estado, Message::PersonaNombreCambiado("Beto".to_string()));
    assert_eq!(estado.nueva_categoria, "Viajes");
    assert_eq!(estado.nueva_persona, "Beto");
    update(&mut estado, Message::AgregarCategoria);
    assert_eq!(estado.nueva_categoria, "");
    assert_eq!(estado.nueva_persona, "Beto");
    update(&mut estado, Message::AgregarPersona);
    assert_eq!(estado.nueva_persona, "");
}

#[test]
fn busca_actualizaciones() {
    let mut estado = Estado::default();
    estado.error_actualizacion = Some("viejo".to_string());
    let tarea = update(&mut estado, Message::BuscarActualizacion);
    assert!(matches!(tarea, Tarea::BuscarActualizacion));
    assert!(estado.buscando_actualizacion);
    assert!(!estado.busqueda_actualizacion_realizada);
    assert!(estado.error_actualizacion.is_none());

    let tarea = update(
        &mut estado,
        Message::ActualizacionEncontrada(Ok(Some(("1.2.0".to_string(), None)))),
    );
    assert!(matches!(tarea, Tarea::Ninguna));
    assert!(!estado.buscando_actualizacion);
    assert!(estado.busqueda_actualizacion_realizada);
    assert_eq!(estado.actualizacion_disponible, Some(("1.2.0".to_string(), None)));

    update(&mut estado, Message::BuscarActualizacion);
    update(&mut estado, Message::ActualizacionEncontrada(Err("sin red".to_string())));
    assert!(estado.busqueda_actualizacion_realizada);
    assert_eq!(estado.actualizacion_disponible, None);
    assert_eq!(estado.error_actualizacion, Some("sin red".to_string()));
}

#[test]
fn recorta_los_nombres_a_agregar() {
    assert_eq!(nombre_a_agregar("  Comida \t"), Some("Comida".to_string()));
    assert_eq!(nombre_a_agregar("Casa y luz"), Some("Casa y luz".to_string()));
    assert_eq!(nombre_a_agregar(" \n "), None);
    assert_eq!(nombre_a_agregar(""), None);
}

#[test]
fn protege_los_valores_iniciales() {
    assert_eq!(
        comprobar_eliminar_categoria(1),
        Err("No se puede eliminar 'Sin Categoria'".to_string())
    );
    assert_eq!(comprobar_eliminar_categoria(2), Ok(()));
    assert_eq!(comprobar_eliminar_persona(1), Err("No se puede eliminar 'General'".to_string()));
    assert_eq!(comprobar_eliminar_persona(-4), Ok(()));
}

#[test]
fn busca_por_id_y_por_nombre() {
    let categorias = vec![categoria(1, "Sin Categoria"), categoria(2, "Comida"), categoria(2, "Otra")];
    assert_eq!(categoria_por_id(&categorias, 2), Some(categoria(2, "Comida")));
    assert_eq!(categoria_por_id(&categorias, 3), None);
    let personas = vec![persona(4, "Ana"), persona(6, "Ana")];
    assert_eq!(persona_por_nombre(&personas, "Ana"), Some(persona(4, "Ana")));
    assert_eq!(persona_por_nombre(&personas, "ana"), None);
    assert_eq!(copiar_categorias(&categorias), categorias);
}

fn pantalla_base() -> pantalla_gastos::Estado {
    pantalla_gastos::Estado {
        fecha: String::new(),
        monto: String::new(),
        descripcion: String::new(),
        categoria: None,
        persona: None,
        categorias: Vec::new(),
        personas: Vec::new(),
        gasto_seleccionado: Some(3),
        mes: 1,
        anio: 2020,
        error: None,
        modo_formulario: ModoFormulario::Cerrado,
        columna_orden: ColumnaOrden::Monto,
        direccion_orden: DireccionOrden::Ascendente,
        dia: 1,
        mes_fecha: 1,
        anio_fecha: 2020,
    }
}

#[test]
fn reparte_los_datos_entre_pantallas() {
    let mut gastos = pantalla_base();
    let mut configuracion = Estado::default();
    configuracion.nueva_categoria = "Algo".to_string();
    datos_cargados(
        &mut gastos,
        &mut configuracion,
        vec![categoria(2, "Comida"), categoria(1, "Sin Categoria")],
        vec![persona(5, "Ana")],
    );
    assert_eq!(gastos.categorias, vec![categoria(2, "Comida"), categoria(1, "Sin Categoria")]);
    assert_eq!(gastos.categoria, Some(categoria(1, "Sin Categoria")));
    assert_eq!(gastos.persona, None);
    assert_eq!(gastos.gasto_seleccionado, Some(3));
    assert_eq!(configuracion.personas, vec![persona(5, "Ana")]);
    assert_eq!(configuracion.nueva_categoria, "");

    mostrar_gastos(&mut gastos, &configuracion);
    assert_eq!((gastos.mes, gastos.anio), (8, 2026));

    let (mes, anio) = datos_iniciales_cargados(
        &mut gastos,
        &mut configuracion,
        Configuracion { mes_default: 11, anio_default: 2025 },
        vec![categoria(1, "Sin Categoria")],
        vec![persona(1, "General")],
    );
    assert_eq!((mes, anio), (11, 2025));
    assert_eq!((gastos.mes, gastos.anio), (11, 2025));
    assert_eq!((configuracion.mes_default, configuracion.anio_default), (11, 2025));
    assert_eq!(gastos.personas, vec![persona(1, "General")]);
    assert_eq!(configuracion.categorias, vec![categoria(1, "Sin Categoria")]);
    assert_eq!(gastos.categoria, Some(categoria(1, "Sin Categoria")));
}

#[test]
fn el_analisis_arranca_en_el_periodo_por_defecto() {
    let mut configuracion = Estado::default();
    configuracion.mes_default = 4;
    configuracion.anio_default = 2027;
    assert_eq!(derroche::aplicacion::mostrar_analisis(&configuracion), (4, 2027));
    let inicial = Configuracion::default();
    assert_eq!((inicial.mes_default, inicial.anio_default), (8, 2026));
}
