use derroche::fecha::{actualizar_fecha, formatear_fecha, sincronizar_selectores_fecha, ultimo_dia_del_mes};
use derroche::formato::{anios_alrededor, formatear_centavos, nombre_mes, numero_mes, MESES};

#[test]
fn convierte_meses_validos_e_invalidos() {
    assert_eq!(numero_mes("Enero"), Some(1));
    assert_eq!(numero_mes("Diciembre"), Some(12));
    assert_eq!(numero_mes("Mes inválido"), None);
    assert_eq!(nombre_mes(8), Some("Agosto"));
    assert_eq!(nombre_mes(0), None);
}

#[test]
fn genera_un_rango_de_anios_desplazable() {
    assert_eq!(anios_alrededor(2030), (2025..=2035).collect::<Vec<_>>());
}

#[test]
fn calcula_el_ultimo_dia_incluso_en_anios_bisiestos() {
    assert_eq!(ultimo_dia_del_mes(2, 2024), 29);
    assert_eq!(ultimo_dia_del_mes(2, 2026), 28);
    assert_eq!(ultimo_dia_del_mes(4, 2026), 30);
}

#[test]
fn ultimo_dia_en_siglos() {
    assert_eq!(ultimo_dia_del_mes(2, 1900), 28);
    assert_eq!(ultimo_dia_del_mes(2, 2000), 29);
    assert_eq!(ultimo_dia_del_mes(1, 2026), 31);
    assert_eq!(ultimo_dia_del_mes(13, 2026), 31);
}

#[test]
fn todos_los_meses_van_y_vuelven() {
    for (i, nombre) in MESES.iter().enumerate() {
        let numero = numero_mes(nombre).unwrap();
        assert_eq!(numero as usize, i + 1);
        assert_eq!(nombre_mes(numero), Some(*nombre));
    }
    assert_eq!(nombre_mes(13), None);
    assert_eq!(numero_mes("enero"), None);
    assert_eq!(numero_mes(""), None);
}

#[test]
fn formatea_montos_desde_centavos() {
    assert_eq!(formatear_centavos(false, 123450), "$1.234,50");
    assert_eq!(formatear_centavos(true, 1000), "-$10");
    assert_eq!(formatear_centavos(false, 100000), "$1.000");
    assert_eq!(formatear_centavos(false, 0), "$0");
    assert_eq!(formatear_centavos(false, 5), "$0,05");
    assert_eq!(formatear_centavos(false, 123456789), "$1.234.567,89");
    assert_eq!(formatear_centavos(false, 99999), "$999,99");
}

#[test]
fn escribe_fechas_con_dos_digitos() {
    assert_eq!(formatear_fecha(5, 3, 2026), "05-03-2026");
    assert_eq!(formatear_fecha(15, 11, 999), "15-11-999");
    assert_eq!(actualizar_fecha(31, 2, 2024), (29, "29-02-2024".to_string()));
    assert_eq!(actualizar_fecha(31, 4, 2026), (30, "30-04-2026".to_string()));
    assert_eq!(actualizar_fecha(10, 4, 2026), (10, "10-04-2026".to_string()));
}

#[test]
fn lee_fechas_de_gastos() {
    assert_eq!(sincronizar_selectores_fecha("17-08-2026"), Ok((17, 8, 2026)));
    assert_eq!(sincronizar_selectores_fecha("31-02-2026"), Err("La fecha del gasto no es válida".to_string()));
    assert_eq!(sincronizar_selectores_fecha("2026-08-17"), Err("La fecha del gasto no es válida".to_string()));
}

#[test]
fn lee_las_fechas_que_escribe() {
    for anio in [0u32, 1, 45, 999, 1900, 2000, 2024, 2026, 9999] {
        for mes in 1..=12u32 {
            for dia in 1..=ultimo_dia_del_mes(mes, anio) {
                let texto = formatear_fecha(dia, mes, anio);
                assert_eq!(sincronizar_selectores_fecha(&texto), Ok((dia, mes, anio)), "{texto}");
            }
        }
    }
}
