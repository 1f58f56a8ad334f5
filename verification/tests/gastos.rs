use derroche::fecha::{formatear_fecha, ultimo_dia_del_mes};
use derroche::filas::FilaGasto;
use derroche::gastos::{
    esta_en_blanco, normalizar_monto, ordenar_por, titulo_columna, validar, ColumnaOrden, DireccionOrden,
    EstadoMonto, ModoFormulario,
};
use derroche::models::{Categoria, Persona};
use derroche::pantalla_gastos::{
    cargar_edicion, preparar_alta, preparar_edicion, update, Estado, Hoy, Message, Tarea,
};
use derroche::tabla::filas_visibles;

fn categoria(id: i32, nombre: &str) -> Categoria {
    Categoria { id, nombre: nombre.to_string() }
}

fn persona(id: i32, nombre: &str) -> Persona {
    Persona { id, nombre: nombre.to_string() }
}

fn estado_base() -> Estado {
    Estado {
        fecha: String::new(),
        monto: String::new(),
        descripcion: String::new(),
        categoria: None,
        persona: None,
        categorias: vec![categoria(1, "Sin Categoria"), categoria(2, "Comida")],
        personas: vec![persona(1, "General"), persona(2, "Ana")],
        gasto_seleccionado: None,
        mes: 8,
        anio: 2026,
        error: None,
        modo_formulario: ModoFormulario::Cerrado,
        columna_orden: ColumnaOrden::Fecha,
        direccion_orden: DireccionOrden::Descendente,
        dia: 1,
        mes_fecha: 8,
        anio_fecha: 2026,
    }
}

fn hoy() -> Hoy {
    Hoy { texto: "17-08-2026".to_string(), dia: 17, mes: 8, anio: 2026 }
}

fn estado_completo() -> Estado {
    let mut estado = estado_base();
    estado.fecha = "17-08-2026".to_string();
    estado.monto = "12,50".to_string();
    estado.descripcion = "Pan".to_string();
    estado.categoria = Some(categoria(2, "Comida"));
    estado.persona = Some(persona(2, "Ana"));
    estado
}

#[test]
fn acepta_montos_en_formato_local() {
    assert_eq!(normalizar_monto("1.234,50").parse::<f64>(), Ok(1234.5));
    assert_eq!(normalizar_monto("1234.50").parse::<f64>(), Ok(1234.5));
}

#[test]
fn normaliza_el_texto_del_monto() {
    assert_eq!(normalizar_monto("1.234,50"), "1234.50");
    assert_eq!(normalizar_monto("1234.50"), "1234.50");
    assert_eq!(normalizar_monto("  12,5 \t"), "12.5");
    assert_eq!(normalizar_monto("1.000.000,25"), "1000000.25");
    assert_eq!(normalizar_monto("   "), "");
    assert_eq!(normalizar_monto("abc"), "abc");
}

#[test]
fn reconoce_textos_en_blanco() {
    assert!(esta_en_blanco(""));
    assert!(esta_en_blanco(" \t\n\u{a0}"));
    assert!(!esta_en_blanco("  a "));
}

#[test]
fn valida_el_formulario_en_orden() {
    let error = |r: Result<(), String>| r.unwrap_err();
    assert_eq!(error(validar("", "", EstadoMonto::Valido, "", false, false)), "La fecha es obligatoria");
    assert_eq!(error(validar("  ", "1", EstadoMonto::Valido, "x", true, true)), "La fecha es obligatoria");
    assert_eq!(
        error(validar("31-02-2026", "1", EstadoMonto::Valido, "x", true, true)),
        "La fecha debe tener el formato DD-MM-AAAA"
    );
    assert_eq!(
        error(validar("2026-08-17", "1", EstadoMonto::Valido, "x", true, true)),
        "La fecha debe tener el formato DD-MM-AAAA"
    );
    assert_eq!(error(validar("17-08-2026", " ", EstadoMonto::Valido, "x", true, true)), "El monto es obligatorio");
    assert_eq!(
        error(validar("17-08-2026", "abc", EstadoMonto::NoNumerico, "x", true, true)),
        "El monto debe ser un numero valido"
    );
    assert_eq!(
        error(validar("17-08-2026", "-3", EstadoMonto::NoPositivo, "x", true, true)),
        "El monto debe ser mayor a 0"
    );
    assert_eq!(
        error(validar("17-08-2026", "3", EstadoMonto::Valido, " ", true, true)),
        "La descripcion es obligatoria"
    );
    assert_eq!(
        error(validar("17-08-2026", "3", EstadoMonto::Valido, "Pan", false, true)),
        "Debes seleccionar una categoria"
    );
    assert_eq!(
        error(validar("17-08-2026", "3", EstadoMonto::Valido, "Pan", true, false)),
        "Debes seleccionar una persona"
    );
    assert_eq!(validar("17-08-2026", "3", EstadoMonto::Valido, "Pan", true, true), Ok(()));
}

#[test]
fn titula_las_columnas_con_su_orden() {
    assert_eq!(titulo_columna("Monto", ColumnaOrden::Monto, ColumnaOrden::Monto, DireccionOrden::Ascendente), "Monto ↑");
    assert_eq!(titulo_columna("Monto", ColumnaOrden::Monto, ColumnaOrden::Monto, DireccionOrden::Descendente), "Monto ↓");
    assert_eq!(titulo_columna("Monto", ColumnaOrden::Monto, ColumnaOrden::Fecha, DireccionOrden::Descendente), "Monto");
}

#[test]
fn pulsar_un_encabezado_cambia_el_orden() {
    assert_eq!(ordenar_por(ColumnaOrden::Fecha, DireccionOrden::Descendente, ColumnaOrden::Fecha), (ColumnaOrden::Fecha, DireccionOrden::Ascendente));
    assert_eq!(ordenar_por(ColumnaOrden::Fecha, DireccionOrden::Ascendente, ColumnaOrden::Fecha), (ColumnaOrden::Fecha, DireccionOrden::Descendente));
    assert_eq!(ordenar_por(ColumnaOrden::Fecha, DireccionOrden::Descendente, ColumnaOrden::Monto), (ColumnaOrden::Monto, DireccionOrden::Ascendente));
    let (c, d) = ordenar_por(ColumnaOrden::Fecha, DireccionOrden::Descendente, ColumnaOrden::Monto);
    assert_eq!(ordenar_por(c, d, ColumnaOrden::Monto), (ColumnaOrden::Monto, DireccionOrden::Descendente));
    let (c, d) = ordenar_por(ColumnaOrden::Persona, DireccionOrden::Ascendente, ColumnaOrden::Persona);
    assert_eq!(ordenar_por(c, d, ColumnaOrden::Persona), (ColumnaOrden::Persona, DireccionOrden::Ascendente));
}

fn fila(descripcion: &str, monto: u64, persona: &str, categoria: &str, fecha: &str) -> FilaGasto {
    FilaGasto {
        descripcion: descripcion.to_string(),
        monto,
        persona: persona.to_string(),
        categoria: categoria.to_string(),
        fecha: fecha.to_string(),
    }
}

fn filas_de_prueba() -> Vec<FilaGasto> {
    vec![
        fila("Pan", 300, "Ana", "Comida", "10-08-2026"),
        fila("Luz", 5000, "Beto", "Casa", "02-08-2026"),
        fila("Cine", 1200, "Ana", "Ocio", "15-07-2026"),
        fila("Agua", 300, "Beto", "Casa", "20-08-2026"),
        fila("Roto", 1, "Ana", "Casa", "sin fecha"),
        fila("Taxi", 700, "Ana", "Viaje", "20-08-2025"),
    ]
}

#[test]
fn filtra_y_ordena_la_tabla_del_mes() {
    let filas = filas_de_prueba();
    assert_eq!(filas_visibles(&filas, 8, 2026, ColumnaOrden::Fecha, DireccionOrden::Descendente), vec![3, 0, 1]);
    assert_eq!(filas_visibles(&filas, 8, 2026, ColumnaOrden::Fecha, DireccionOrden::Ascendente), vec![1, 0, 3]);
    assert_eq!(filas_visibles(&filas, 8, 2026, ColumnaOrden::Monto, DireccionOrden::Ascendente), vec![0, 3, 1]);
    assert_eq!(filas_visibles(&filas, 8, 2026, ColumnaOrden::Monto, DireccionOrden::Descendente), vec![1, 0, 3]);
    assert_eq!(filas_visibles(&filas, 8, 2026, ColumnaOrden::Descripcion, DireccionOrden::Ascendente), vec![3, 1, 0]);
    assert_eq!(filas_visibles(&filas, 8, 2026, ColumnaOrden::Persona, DireccionOrden::Ascendente), vec![0, 1, 3]);
    assert_eq!(filas_visibles(&filas, 8, 2026, ColumnaOrden::Categoria, DireccionOrden::Descendente), vec![0, 1, 3]);
    assert_eq!(filas_visibles(&filas, 7, 2026, ColumnaOrden::Fecha, DireccionOrden::Descendente), vec![2]);
    assert_eq!(filas_visibles(&filas, 8, 2025, ColumnaOrden::Fecha, DireccionOrden::Descendente), vec![5]);
    assert_eq!(filas_visibles(&filas, 1, 2026, ColumnaOrden::Fecha, DireccionOrden::Descendente), Vec::<usize>::new());
    assert_eq!(filas_visibles(&Vec::new(), 8, 2026, ColumnaOrden::Monto, DireccionOrden::Ascendente), Vec::<usize>::new());
}

#[test]
fn abre_y_cierra_el_formulario() {
    let mut estado = estado_base();
    estado.error = Some("viejo".to_string());
    assert_eq!(update(&mut estado, Message::MostrarFormulario, &hoy()), Tarea::Ninguna);
    assert!(matches!(estado.modo_formulario, ModoFormulario::Nuevo));
    assert_eq!(estado.fecha, "17-08-2026");
    assert_eq!((estado.dia, estado.mes_fecha, estado.anio_fecha), (17, 8, 2026));
    assert_eq!(estado.categoria, Some(categoria(1, "Sin Categoria")));
    assert_eq!(estado.persona, Some(persona(1, "General")));
    assert_eq!(estado.error, None);

    estado.monto = "3".to_string();
    assert_eq!(update(&mut estado, Message::CerrarFormulario, &hoy()), Tarea::Ninguna);
    assert!(matches!(estado.modo_formulario, ModoFormulario::Cerrado));
    assert_eq!(estado.fecha, "");
    assert_eq!(estado.monto, "");
    assert_eq!(estado.categoria, None);
    assert_eq!(estado.persona, None);
}

#[test]
fn el_formulario_sin_valores_por_defecto_queda_sin_seleccion() {
    let mut estado = estado_base();
    estado.categorias = vec![categoria(2, "Comida")];
    estado.personas = Vec::new();
    update(&mut estado, Message::MostrarFormulario, &hoy());
    assert_eq!(estado.categoria, None);
    assert_eq!(estado.persona, None);
}

#[test]
fn ajusta_el_dia_al_mes_elegido() {
    let mut estado = estado_base();
    estado.mes_fecha = 2;
    estado.anio_fecha = 2024;
    update(&mut estado, Message::DiaSeleccionado(31), &hoy());
    assert_eq!(estado.dia, 29);
    assert_eq!(estado.fecha, "29-02-2024");

    update(&mut estado, Message::AnioSeleccionado(2025), &hoy());
    assert_eq!(estado.dia, 28);
    assert_eq!(estado.fecha, "28-02-2025");

    estado.dia = 31;
    update(&mut estado, Message::MesFechaSeleccionado("Abril".to_string()), &hoy());
    assert_eq!((estado.dia, estado.mes_fecha), (30, 4));
    assert_eq!(estado.fecha, "30-04-2025");

    update(&mut estado, Message::MesFechaSeleccionado("Nada".to_string()), &hoy());
    assert_eq!((estado.dia, estado.mes_fecha), (30, 4));
    assert_eq!(estado.fecha, "30-04-2025");
}

#[test]
fn elegir_mes_de_la_tabla_quita_la_seleccion() {
    let mut estado = estado_base();
    estado.gasto_seleccionado = Some(3);
    update(&mut estado, Message::MesSeleccionado("Marzo".to_string()), &hoy());
    assert_eq!(estado.mes, 3);
    assert_eq!(estado.gasto_seleccionado, None);

    estado.gasto_seleccionado = Some(3);
    update(&mut estado, Message::MesSeleccionado("marzo".to_string()), &hoy());
    assert_eq!(estado.mes, 3);
    assert_eq!(estado.gasto_seleccionado, Some(3));
}

#[test]
fn elimina_solo_con_un_gasto_seleccionado() {
    let mut estado = estado_base();
    update(&mut estado, Message::SolicitarEliminarGasto, &hoy());
    assert!(matches!(estado.modo_formulario, ModoFormulario::Cerrado));
    assert_eq!(update(&mut estado, Message::ConfirmarEliminarGasto, &hoy()), Tarea::Ninguna);

    update(&mut estado, Message::GastoSeleccionado(7), &hoy());
    update(&mut estado, Message::SolicitarEliminarGasto, &hoy());
    assert!(matches!(estado.modo_formulario, ModoFormulario::ConfirmarEliminacion));
    assert_eq!(update(&mut estado, Message::ConfirmarEliminarGasto, &hoy()), Tarea::EliminarGasto(7));

    assert_eq!(update(&mut estado, Message::GastoEliminado(Err("falló".to_string())), &hoy()), Tarea::Ninguna);
    assert_eq!(estado.error, Some("falló".to_string()));
    assert_eq!(estado.gasto_seleccionado, Some(7));

    assert_eq!(update(&mut estado, Message::GastoEliminado(Ok(())), &hoy()), Tarea::CargarGastos);
    assert_eq!(estado.error, None);
    assert_eq!(estado.gasto_seleccionado, None);

    update(&mut estado, Message::CancelarEliminarGasto, &hoy());
    assert!(matches!(estado.modo_formulario, ModoFormulario::Cerrado));
}

#[test]
fn tras_guardar_se_recargan_los_gastos() {
    let mut estado = estado_completo();
    estado.modo_formulario = ModoFormulario::Nuevo;
    assert_eq!(update(&mut estado, Message::GastoAgregado(Ok(())), &hoy()), Tarea::CargarGastos);
    assert!(matches!(estado.modo_formulario, ModoFormulario::Cerrado));
    assert_eq!(estado.monto, "");
    assert_eq!(estado.descripcion, "");
    assert_eq!(estado.fecha, "17-08-2026");
    assert_eq!(estado.categoria, Some(categoria(1, "Sin Categoria")));

    let mut estado = estado_completo();
    estado.modo_formulario = ModoFormulario::Editar(4);
    estado.gasto_seleccionado = Some(4);
    assert_eq!(update(&mut estado, Message::GastoEditado(Ok(())), &hoy()), Tarea::CargarGastos);
    assert!(matches!(estado.modo_formulario, ModoFormulario::Cerrado));
    assert_eq!(estado.fecha, "");
    assert_eq!(estado.categoria, None);
    assert_eq!(estado.gasto_seleccionado, None);

    let mut estado = estado_completo();
    assert_eq!(update(&mut estado, Message::GastoAgregado(Err("sin base".to_string())), &hoy()), Tarea::Ninguna);
    assert_eq!(estado.error, Some("sin base".to_string()));
    assert_eq!(estado.descripcion, "Pan");
}

#[test]
fn ordena_al_pulsar_encabezados() {
    let mut estado = estado_base();
    update(&mut estado, Message::OrdenarPor(ColumnaOrden::Fecha), &hoy());
    assert_eq!((estado.columna_orden, estado.direccion_orden), (ColumnaOrden::Fecha, DireccionOrden::Ascendente));
    update(&mut estado, Message::OrdenarPor(ColumnaOrden::Monto), &hoy());
    assert_eq!((estado.columna_orden, estado.direccion_orden), (ColumnaOrden::Monto, DireccionOrden::Ascendente));
}

#[test]
fn cambia_los_campos_del_formulario() {
    let mut estado = estado_base();
    update(&mut estado, Message::MontoCambiado("45".to_string()), &hoy());
    update(&mut estado, Message::DescripcionCambiada("Té".to_string()), &hoy());
    update(&mut estado, Message::CategoriaSeleccionada(categoria(2, "Comida")), &hoy());
    update(&mut estado, Message::PersonaSeleccionada(persona(2, "Ana")), &hoy());
    assert_eq!(estado.monto, "45");
    assert_eq!(estado.descripcion, "Té");
    assert_eq!(estado.categoria, Some(categoria(2, "Comida")));
    assert_eq!(estado.persona, Some(persona(2, "Ana")));
    update(&mut estado, Message::DeseleccionarGasto, &hoy());
    assert_eq!(estado.gasto_seleccionado, None);
}

#[test]
fn prepara_el_alta_de_un_gasto_valido() {
    let mut estado = estado_completo();
    estado.error = Some("viejo".to_string());
    let alta = preparar_alta(&mut estado, EstadoMonto::Valido).unwrap();
    assert_eq!(alta.descripcion, "Pan");
    assert_eq!(alta.fecha, "17-08-2026");
    assert_eq!((alta.categoria_id, alta.persona_id), (2, 2));
    assert_eq!(estado.error, None);

    let mut estado = estado_completo();
    assert!(preparar_alta(&mut estado, EstadoMonto::NoPositivo).is_none());
    assert_eq!(estado.error, Some("El monto debe ser mayor a 0".to_string()));

    let mut estado = estado_completo();
    estado.persona = None;
    assert!(preparar_alta(&mut estado, EstadoMonto::Valido).is_none());
    assert_eq!(estado.error, Some("Debes seleccionar una persona".to_string()));
}

#[test]
fn prepara_la_edicion_solo_al_editar() {
    let mut estado = estado_completo();
    estado.modo_formulario = ModoFormulario::Editar(9);
    let (id, alta) = preparar_edicion(&mut estado, EstadoMonto::Valido).unwrap();
    assert_eq!(id, 9);
    assert_eq!(alta.descripcion, "Pan");

    let mut estado = estado_completo();
    estado.modo_formulario = ModoFormulario::Nuevo;
    estado.error = Some("viejo".to_string());
    assert!(preparar_edicion(&mut estado, EstadoMonto::Valido).is_none());
    assert_eq!(estado.error, None);

    let mut estado = estado_completo();
    estado.modo_formulario = ModoFormulario::Editar(9);
    estado.fecha = String::new();
    assert!(preparar_edicion(&mut estado, EstadoMonto::Valido).is_none());
    assert_eq!(estado.error, Some("La fecha es obligatoria".to_string()));
}

#[test]
fn carga_un_gasto_para_editarlo() {
    let mut estado = estado_base();
    cargar_edicion(
        &mut estado,
        4,
        "Pan".to_string(),
        "12.5".to_string(),
        "03-02-2024".to_string(),
        "Comida",
        "Nadie",
    );
    assert!(matches!(estado.modo_formulario, ModoFormulario::Editar(4)));
    assert_eq!((estado.dia, estado.mes_fecha, estado.anio_fecha), (3, 2, 2024));
    assert_eq!(estado.descripcion, "Pan");
    assert_eq!(estado.monto, "12.5");
    assert_eq!(estado.fecha, "03-02-2024");
    assert_eq!(estado.categoria, Some(categoria(2, "Comida")));
    assert_eq!(estado.persona, None);
    assert_eq!(estado.error, None);

    let mut estado = estado_base();
    cargar_edicion(
        &mut estado,
        4,
        "Pan".to_string(),
        "12.5".to_string(),
        "30-02-2024".to_string(),
        "Comida",
        "Ana",
    );
    assert!(matches!(estado.modo_formulario, ModoFormulario::Cerrado));
    assert_eq!(estado.error, Some("La fecha del gasto no es válida".to_string()));
    assert_eq!(estado.descripcion, "Pan");
    assert_eq!((estado.dia, estado.mes_fecha, estado.anio_fecha), (1, 8, 2026));
}

#[test]
fn los_selectores_siempre_marcan_una_fecha_que_existe() {
    let mut estado = estado_base();
    let meses = ["Febrero", "Abril", "Enero", "Nada", "Septiembre", "Febrero"];
    for (i, dia) in [31u32, 30, 29, 1, 31, 29].iter().enumerate() {
        for anio in [1900u32, 2000, 2023, 2024] {
            update(&mut estado, Message::DiaSeleccionado(*dia), &hoy());
            update(&mut estado, Message::MesFechaSeleccionado(meses[i].to_string()), &hoy());
            update(&mut estado, Message::AnioSeleccionado(anio), &hoy());
            assert!(1 <= estado.mes_fecha && estado.mes_fecha <= 12);
            assert!(1 <= estado.dia && estado.dia <= ultimo_dia_del_mes(estado.mes_fecha, estado.anio_fecha));
            assert_eq!(estado.fecha, formatear_fecha(estado.dia, estado.mes_fecha, estado.anio_fecha));
        }
    }
}

#[test]
fn editar_sin_cambios_guarda_el_mismo_gasto() {
    let mut estado = estado_base();
    cargar_edicion(
        &mut estado,
        12,
        "Cena".to_string(),
        "40".to_string(),
        "29-02-2024".to_string(),
        "Comida",
        "Ana",
    );
    let (id, alta) = preparar_edicion(&mut estado, EstadoMonto::Valido).unwrap();
    assert_eq!(id, 12);
    assert_eq!(alta.descripcion, "Cena");
    assert_eq!(alta.fecha, "29-02-2024");
    assert_eq!((alta.categoria_id, alta.persona_id), (2, 2));
    assert!(matches!(estado.modo_formulario, ModoFormulario::Editar(12)));
}

#[test]
fn la_fecha_de_hoy_se_escribe_con_sus_selectores() {
    let hoy = derroche::pantalla_gastos::hoy_desde(5, 3, 2026);
    assert_eq!(hoy.texto, "05-03-2026");
    assert_eq!((hoy.dia, hoy.mes, hoy.anio), (5, 3, 2026));
    let mut estado = estado_base();
    update(&mut estado, Message::MostrarFormulario, &hoy);
    assert_eq!(estado.fecha, formatear_fecha(estado.dia, estado.mes_fecha, estado.anio_fecha));
    assert_eq!(estado.fecha, "05-03-2026");
}
