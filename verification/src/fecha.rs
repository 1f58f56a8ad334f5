//! Fechas con formato `DD-MM-AAAA`: lectura, escritura y días por mes.

use chrono::Datelike;
use vstd::prelude::*;
use vstd::string::*;
use crate::numeros::{decimal, escribir_decimal};
use crate::texto::empujar;

verus! {

/// Indica si `anio` es bisiesto en el calendario gregoriano.
pub open spec fn es_bisiesto(anio: int) -> bool {
    anio % 400 == 0 || (anio % 4 == 0 && anio % 100 != 0)
}

/// La cantidad de días del mes `mes` (1 a 12) del año `anio`.
pub open spec fn dias_en_mes(mes: int, anio: int) -> int {
    if mes == 2 {
        if es_bisiesto(anio) {
            29
        } else {
            28
        }
    } else if mes == 4 || mes == 6 || mes == 9 || mes == 11 {
        30
    } else {
        31
    }
}

/// El día, mes y año de la fecha que `chrono` lee en `texto` con el
/// formato `%d-%m-%Y`, o `None` si no lee ninguna.
pub uninterp spec fn fecha_en_texto(texto: Seq<char>) -> Option<(u32, u32, i32)>;

/// Lee una fecha con formato `DD-MM-AAAA` y da su día, mes y año.
///
/// Llama a `chrono::NaiveDate::parse_from_str` con el formato `%d-%m-%Y`.
/// El contrato afirma que el resultado depende sólo del texto (se nombra
/// `fecha_en_texto`); que una fecha leída es una fecha válida del
/// calendario gregoriano: mes entre 1 y 12 y día entre 1 y los días de ese
/// mes; y que se lee cada fecha válida escrita con día y mes de dos cifras
/// y un año sin signo de hasta cuatro cifras, el ancho que `chrono` lee
/// para `%Y` sin signo. No afirma qué otros textos se aceptan.
#[verifier::external_body]
pub(crate) fn analizar_fecha(texto: &str) -> (r: Option<(u32, u32, i32)>)
    ensures
        r == fecha_en_texto(texto@),
        r matches Some((d, m, a)) ==> 1 <= m <= 12 && 1 <= d <= dias_en_mes(m as int, a as int),
        forall|d: nat, m: nat, a: nat|
            1 <= m <= 12 && 1 <= d <= dias_en_mes(m as int, a as int) && a <= 9999
                && #[trigger] texto_fecha(d, m, a) == texto@ ==> r == Some((d as u32, m as u32, a as i32)),
{
    chrono::NaiveDate::parse_from_str(texto, "%d-%m-%Y").ok().map(|f| (f.day(), f.month(), f.year()))
}

/// Ley: los meses del calendario gregoriano tienen 31 días (enero, marzo,
/// mayo, julio, agosto, octubre y diciembre), 30 (abril, junio, septiembre
/// y noviembre) o, febrero, 29 en los años múltiplos de 4 que no son
/// múltiplos de 100 salvo que lo sean de 400, y 28 en los demás; y un año
/// tiene 366 días si su febrero tiene 29 y 365 si no.
pub proof fn ley_dias_del_calendario(mes: int, anio: int)
    ensures
        mes == 1 || mes == 3 || mes == 5 || mes == 7 || mes == 8 || mes == 10 || mes == 12
            ==> dias_en_mes(mes, anio) == 31,
        mes == 4 || mes == 6 || mes == 9 || mes == 11 ==> dias_en_mes(mes, anio) == 30,
        mes == 2 ==> dias_en_mes(mes, anio) == if anio % 4 == 0 && (anio % 100 != 0 || anio % 400 == 0) {
            29int
        } else {
            28int
        },
        dias_en_mes(1, anio) + dias_en_mes(2, anio) + dias_en_mes(3, anio) + dias_en_mes(4, anio)
            + dias_en_mes(5, anio) + dias_en_mes(6, anio) + dias_en_mes(7, anio) + dias_en_mes(8, anio)
            + dias_en_mes(9, anio) + dias_en_mes(10, anio) + dias_en_mes(11, anio) + dias_en_mes(12, anio)
            == if dias_en_mes(2, anio) == 29 { 366int } else { 365int },
{
}

/// El último día del mes `mes` del año `anio`; 31 para un mes fuera de rango.
pub fn ultimo_dia_del_mes(mes: u32, anio: u32) -> (r: u32)
    ensures
        r == dias_en_mes(mes as int, anio as int),
        mes == 1 || mes == 3 || mes == 5 || mes == 7 || mes == 8 || mes == 10 || mes == 12 ==> r == 31,
        mes == 4 || mes == 6 || mes == 9 || mes == 11 ==> r == 30,
        mes == 2 ==> (r == 29 || r == 28) && (r == 29 <==> (anio % 4 == 0 && (anio % 100 != 0 || anio % 400 == 0))),
{
    if mes == 2 {
        if anio % 400 == 0 || (anio % 4 == 0 && anio % 100 != 0) {
            29
        } else {
            28
        }
    } else if mes == 4 || mes == 6 || mes == 9 || mes == 11 {
        30
    } else {
        31
    }
}

/// Un número escrito con al menos dos dígitos.
pub open spec fn con_dos_digitos(n: nat) -> Seq<char> {
    if n < 10 {
        seq!['0'] + decimal(n)
    } else {
        decimal(n)
    }
}

/// El texto `DD-MM-AAAA` de una fecha.
pub open spec fn texto_fecha(dia: nat, mes: nat, anio: nat) -> Seq<char> {
    con_dos_digitos(dia) + seq!['-'] + con_dos_digitos(mes) + seq!['-'] + decimal(anio)
}

/// Agrega `n` con al menos dos dígitos al final de `s`.
fn escribir_dos_digitos(n: u32, s: &mut String)
    ensures
        final(s)@ == old(s)@ + con_dos_digitos(n as nat),
{
    if n < 10 {
        empujar(s, '0');
    }
    escribir_decimal(n as u64, s);
    assert(final(s)@ =~= old(s)@ + con_dos_digitos(n as nat));
}

/// Escribe una fecha como `DD-MM-AAAA`.
pub fn formatear_fecha(dia: u32, mes: u32, anio: u32) -> (r: String)
    ensures
        r@ == texto_fecha(dia as nat, mes as nat, anio as nat),
{
    let mut r = String::new();
    escribir_dos_digitos(dia, &mut r);
    empujar(&mut r, '-');
    escribir_dos_digitos(mes, &mut r);
    empujar(&mut r, '-');
    escribir_decimal(anio as u64, &mut r);
    assert(r@ =~= texto_fecha(dia as nat, mes as nat, anio as nat));
    r
}

/// Ajusta el día seleccionado al último del mes si lo excede y escribe la
/// fecha resultante: da el día ajustado y el texto `DD-MM-AAAA`.
pub fn actualizar_fecha(dia: u32, mes: u32, anio: u32) -> (r: (u32, String))
    ensures
        r.0 == if dia <= dias_en_mes(mes as int, anio as int) { dia as int } else { dias_en_mes(mes as int, anio as int) },
        r.1@ == texto_fecha(r.0 as nat, mes as nat, anio as nat),
{
    let ultimo = ultimo_dia_del_mes(mes, anio);
    let nuevo = if dia <= ultimo {
        dia
    } else {
        ultimo
    };
    (nuevo, formatear_fecha(nuevo, mes, anio))
}

/// El día, mes y año (como número sin signo) de una fecha `DD-MM-AAAA`.
/// Una fecha válida escrita por `formatear_fecha`, con año de hasta cuatro
/// cifras, se lee tal como se escribió.
pub fn sincronizar_selectores_fecha(fecha: &str) -> (r: Result<(u32, u32, u32), String>)
    ensures
        match (r, fecha_en_texto(fecha@)) {
            (Ok((d, m, a)), Some((d2, m2, a2))) => d == d2 && m == m2 && a == a2 as u32,
            (Err(e), None) => e@ == "La fecha del gasto no es válida"@,
            _ => false,
        },
        forall|d: nat, m: nat, a: nat|
            1 <= m <= 12 && 1 <= d <= dias_en_mes(m as int, a as int) && a <= 9999
                && #[trigger] texto_fecha(d, m, a) == fecha@ ==> r == Ok::<(u32, u32, u32), String>((d as u32, m as u32, a as u32)),
{
    match analizar_fecha(fecha) {
        Some((d, m, a)) => Ok((d, m, a as u32)),
        None => Err(String::from_str("La fecha del gasto no es válida")),
    }
}

} // verus!
