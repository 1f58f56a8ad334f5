use derroche::analisis::{mes_anterior, totales_del_anio};

#[test]
fn calcula_el_mes_anterior() {
    assert_eq!(mes_anterior(1, 2026), (12, 2025));
    assert_eq!(mes_anterior(3, 2026), (2, 2026));
    assert_eq!(mes_anterior(12, 0), (11, 0));
    assert_eq!(mes_anterior(1, 0), (12, -1));
}

#[test]
fn ubica_los_totales_de_cada_mes() {
    let totales = vec![
        (3, 2026, 150.5),
        (3, 2025, 99.0),
        (12, 2026, 10.0),
        (3, 2026, 7.0),
        (1, 2026, 1.25),
    ];
    let anio = totales_del_anio(&totales, 2026, 0.0);
    assert_eq!(anio.len(), 12);
    assert_eq!(anio[0], 1.25);
    assert_eq!(anio[1], 0.0);
    assert_eq!(anio[2], 150.5);
    assert_eq!(anio[11], 10.0);
    assert_eq!(totales_del_anio(&totales, 2025, 0.0)[2], 99.0);
    assert_eq!(totales_del_anio(&Vec::<(u32, i32, u64)>::new(), 2026, 0), vec![0; 12]);
}
