//! Las filas de la tabla de gastos y las claves con que se ordenan.

use vstd::prelude::*;
use crate::fecha::{analizar_fecha, fecha_en_texto};
use crate::gastos::ColumnaOrden;

verus! {

/// Lo que la tabla de gastos usa de cada gasto para filtrarlo y ordenarlo.
/// `monto` es la clave con que se ordenan los montos: para montos
/// positivos, su representación binaria, que los ordena como sus valores.
pub struct FilaGasto {
    pub descripcion: String,
    pub monto: u64,
    pub persona: String,
    pub categoria: String,
    pub fecha: String,
}

/// Los códigos de los caracteres de un texto.
pub open spec fn codigos(s: Seq<char>) -> Seq<int> {
    s.map_values(|c: char| c as int)
}

/// Los índices como enteros.
pub open spec fn enteros(r: Seq<usize>) -> Seq<int> {
    r.map_values(|x: usize| x as int)
}

/// La clave de un número.
pub open spec fn clave_numero(n: u64) -> Seq<int> {
    seq![n as int]
}

/// La clave de una fecha: año, mes y día.
pub open spec fn clave_fecha(d: u32, m: u32, a: i32) -> Seq<int> {
    seq![a as int, m as int, d as int]
}

/// La clave con que se ordena una fila por una columna: el texto de la
/// columna, el monto, o la fecha como año, mes y día.
pub open spec fn clave_fila(f: FilaGasto, columna: ColumnaOrden) -> Seq<int> {
    match columna {
        ColumnaOrden::Descripcion => codigos(f.descripcion@),
        ColumnaOrden::Monto => clave_numero(f.monto),
        ColumnaOrden::Persona => codigos(f.persona@),
        ColumnaOrden::Categoria => codigos(f.categoria@),
        ColumnaOrden::Fecha => match fecha_en_texto(f.fecha@) {
            Some((d, m, a)) => clave_fecha(d, m, a),
            None => seq![],
        },
    }
}

/// Las claves de todas las filas para una columna.
pub open spec fn claves(filas: Seq<FilaGasto>, columna: ColumnaOrden) -> Seq<Seq<int>> {
    filas.map_values(|f: FilaGasto| clave_fila(f, columna))
}

/// Indica si la fecha de una fila es del mes `mes` del año `anio`.
pub open spec fn es_del_mes(f: FilaGasto, mes: u32, anio: u32) -> bool {
    match fecha_en_texto(f.fecha@) {
        Some((_, m, a)) => m == mes && a as u32 == anio,
        None => false,
    }
}

/// La fecha de una fila si es del mes `mes` del año `anio`.
pub fn fecha_del_mes(f: &FilaGasto, mes: u32, anio: u32) -> (r: Option<(u32, u32, i32)>)
    ensures
        r is Some <==> es_del_mes(*f, mes, anio),
        r matches Some(x) ==> fecha_en_texto(f.fecha@) == Some(x),
{
    match analizar_fecha(f.fecha.as_str()) {
        Some((d, m, a)) => {
            if m == mes && a as u32 == anio {
                Some((d, m, a))
            } else {
                None
            }
        },
        None => None,
    }
}

/// Los enteros de una secuencia de índices con uno insertado.
pub proof fn lema_enteros_insert(r: Seq<usize>, p: int, x: usize)
    requires
        0 <= p <= r.len(),
    ensures
        enteros(r.insert(p, x)) == enteros(r).insert(p, x as int),
{
    assert(enteros(r.insert(p, x)) =~= enteros(r).insert(p, x as int));
}

/// La longitud de una secuencia como entero.
pub open spec fn largo<T>(s: Seq<T>) -> int {
    s.len() as int
}

/// Los componentes de la clave de una fecha.
pub proof fn lema_clave_fecha(d: u32, m: u32, a: i32)
    ensures
        clave_fecha(d, m, a).len() == 3,
        clave_fecha(d, m, a)[0] == a,
        clave_fecha(d, m, a).drop_first().len() == 2,
        clave_fecha(d, m, a).drop_first()[0] == m,
        clave_fecha(d, m, a).drop_first().drop_first().len() == 1,
        clave_fecha(d, m, a).drop_first().drop_first()[0] == d,
        clave_fecha(d, m, a).drop_first().drop_first().drop_first().len() == 0,
{
}

} // verus!
