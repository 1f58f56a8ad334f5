//! La tabla de gastos de un mes: qué filas se muestran y en qué orden.
//! El orden es estable: filas con la misma clave conservan su orden.

use std::cmp::Ordering;
use vstd::prelude::*;
use crate::fecha::fecha_en_texto;
use crate::filas::{
    FilaGasto, clave_fecha, clave_fila, clave_numero, largo, lema_clave_fecha, claves, codigos, enteros, es_del_mes, fecha_del_mes, lema_enteros_insert,
};
use crate::gastos::{ColumnaOrden, DireccionOrden};
use crate::orden::{
    antes_en_diccionario, comparar_textos, invertir, lema_textos_antisimetrico, ley_orden_de_diccionario, orden_naturales,
    orden_textos,
};

verus! {

/// El orden lexicográfico entre dos secuencias de enteros; una secuencia
/// va antes que las que la extienden.
pub open spec fn orden_lexico(a: Seq<int>, b: Seq<int>) -> Ordering
    decreases a.len(),
{
    if a.len() == 0 || b.len() == 0 {
        orden_naturales(a.len(), b.len())
    } else if a[0] < b[0] {
        Ordering::Less
    } else if a[0] > b[0] {
        Ordering::Greater
    } else {
        orden_lexico(a.drop_first(), b.drop_first())
    }
}

/// El orden entre dos claves en el sentido dado.
pub open spec fn orden_claves(a: Seq<int>, b: Seq<int>, direccion: DireccionOrden) -> Ordering {
    match direccion {
        DireccionOrden::Ascendente => orden_lexico(a, b),
        DireccionOrden::Descendente => invertir(orden_lexico(a, b)),
    }
}

/// Las filas `r` (índices en `k`) están en orden no decreciente.
pub open spec fn ordenada(k: Seq<Seq<int>>, r: Seq<int>, direccion: DireccionOrden) -> bool {
    forall|i: int, j: int|
        #![trigger r[i], r[j]]
        0 <= i < j < r.len() ==> orden_claves(k[r[i]], k[r[j]], direccion) != Ordering::Greater
}

/// Las filas `r` con claves iguales aparecen en el orden de sus índices.
pub open spec fn estable(k: Seq<Seq<int>>, r: Seq<int>, direccion: DireccionOrden) -> bool {
    forall|i: int, j: int|
        #![trigger r[i], r[j]]
        0 <= i < j < r.len() && orden_claves(k[r[i]], k[r[j]], direccion) == Ordering::Equal ==> r[i] < r[j]
}

/// Ningún índice aparece dos veces.
pub open spec fn sin_repetidos(r: Seq<int>) -> bool {
    forall|i: int, j: int| #![trigger r[i], r[j]] 0 <= i < j < r.len() ==> r[i] != r[j]
}

/// El orden lexicográfico es antisimétrico y sólo iguala secuencias iguales.
pub proof fn lema_lexico_antisimetrico(a: Seq<int>, b: Seq<int>)
    ensures
        orden_lexico(a, b) == invertir(orden_lexico(b, a)),
        orden_lexico(a, b) == Ordering::Equal <==> a == b,
    decreases a.len(),
{
    if a.len() > 0 && b.len() > 0 {
        lema_lexico_antisimetrico(a.drop_first(), b.drop_first());
        if a[0] == b[0] && a.drop_first() == b.drop_first() {
            assert(a =~= seq![a[0]] + a.drop_first());
            assert(b =~= seq![b[0]] + b.drop_first());
        }
    } else if a.len() == 0 && b.len() == 0 {
        assert(a =~= b);
    }
}

/// El orden lexicográfico es transitivo.
pub proof fn lema_lexico_transitivo(a: Seq<int>, b: Seq<int>, c: Seq<int>)
    requires
        orden_lexico(a, b) == Ordering::Less,
        orden_lexico(b, c) == Ordering::Less,
    ensures
        orden_lexico(a, c) == Ordering::Less,
    decreases a.len(),
{
    if a.len() > 0 && b.len() > 0 && c.len() > 0 && a[0] == b[0] && b[0] == c[0] {
        lema_lexico_transitivo(a.drop_first(), b.drop_first(), c.drop_first());
    }
}

/// El orden entre claves, en cualquier sentido, es antisimétrico y su
/// "no mayor" es transitivo.
pub proof fn lema_claves(a: Seq<int>, b: Seq<int>, c: Seq<int>, direccion: DireccionOrden)
    ensures
        orden_claves(a, b, direccion) == invertir(orden_claves(b, a, direccion)),
        orden_claves(a, b, direccion) == Ordering::Equal <==> a == b,
        orden_claves(a, b, direccion) != Ordering::Greater && orden_claves(b, c, direccion) != Ordering::Greater
            ==> orden_claves(a, c, direccion) != Ordering::Greater,
{
    lema_lexico_antisimetrico(a, b);
    lema_lexico_antisimetrico(b, c);
    lema_lexico_antisimetrico(a, c);
    if orden_lexico(a, b) == Ordering::Less && orden_lexico(b, c) == Ordering::Less {
        lema_lexico_transitivo(a, b, c);
    }
    if orden_lexico(c, b) == Ordering::Less && orden_lexico(b, a) == Ordering::Less {
        lema_lexico_transitivo(c, b, a);
    }
}

/// Comparar textos es comparar los códigos de sus caracteres.
pub proof fn lema_textos_lexico(a: Seq<char>, b: Seq<char>)
    ensures
        orden_textos(a, b) == orden_lexico(codigos(a), codigos(b)),
    decreases a.len(),
{
    if a.len() > 0 && b.len() > 0 {
        assert(codigos(a).drop_first() =~= codigos(a.drop_first()));
        assert(codigos(b).drop_first() =~= codigos(b.drop_first()));
        lema_textos_lexico(a.drop_first(), b.drop_first());
    }
}

/// Dos textos están en orden en el sentido dado: en orden ascendente el
/// segundo no va antes que el primero en el diccionario; en descendente, el
/// primero no va antes que el segundo.
pub open spec fn textos_en_orden(x: Seq<char>, y: Seq<char>, direccion: DireccionOrden) -> bool {
    match direccion {
        DireccionOrden::Ascendente => !antes_en_diccionario(y, x),
        DireccionOrden::Descendente => !antes_en_diccionario(x, y),
    }
}

/// Dos números están en orden en el sentido dado.
pub open spec fn numeros_en_orden(x: u64, y: u64, direccion: DireccionOrden) -> bool {
    match direccion {
        DireccionOrden::Ascendente => x <= y,
        DireccionOrden::Descendente => y <= x,
    }
}

/// La fecha (día, mes, año) `p` no es posterior a la fecha `q`.
pub open spec fn fecha_no_posterior(p: (u32, u32, i32), q: (u32, u32, i32)) -> bool {
    p.2 < q.2 || (p.2 == q.2 && (p.1 < q.1 || (p.1 == q.1 && p.0 <= q.0)))
}

/// Dos fechas (día, mes, año) están en orden en el sentido dado: la
/// primera no es posterior a la segunda en orden ascendente, ni anterior
/// en descendente.
pub open spec fn fechas_en_orden(x: (u32, u32, i32), y: (u32, u32, i32), direccion: DireccionOrden) -> bool {
    match direccion {
        DireccionOrden::Ascendente => fecha_no_posterior(x, y),
        DireccionOrden::Descendente => fecha_no_posterior(y, x),
    }
}

/// Dos filas están en orden por la columna y en el sentido dados: por el
/// texto completo de la descripción, la persona o la categoría en el orden
/// del diccionario, por el monto, o por la fecha.
pub open spec fn filas_en_orden(f: FilaGasto, g: FilaGasto, columna: ColumnaOrden, direccion: DireccionOrden) -> bool {
    match columna {
        ColumnaOrden::Descripcion => textos_en_orden(f.descripcion@, g.descripcion@, direccion),
        ColumnaOrden::Monto => numeros_en_orden(f.monto, g.monto, direccion),
        ColumnaOrden::Persona => textos_en_orden(f.persona@, g.persona@, direccion),
        ColumnaOrden::Categoria => textos_en_orden(f.categoria@, g.categoria@, direccion),
        ColumnaOrden::Fecha => match (fecha_en_texto(f.fecha@), fecha_en_texto(g.fecha@)) {
            (Some(x), Some(y)) => fechas_en_orden(x, y, direccion),
            _ => true,
        },
    }
}

/// Dos textos cuyas claves no están invertidas están en orden.
proof fn lema_textos_en_orden(x: Seq<char>, y: Seq<char>, direccion: DireccionOrden)
    requires
        orden_claves(codigos(x), codigos(y), direccion) != Ordering::Greater,
    ensures
        textos_en_orden(x, y, direccion),
{
    lema_textos_lexico(x, y);
    lema_textos_antisimetrico(x, y);
    ley_orden_de_diccionario(x, y);
    ley_orden_de_diccionario(y, x);
}

/// Ley: una fila cuya clave no excede la de otra en el sentido dado va en
/// orden con ella según la columna: por el texto completo en el orden del
/// diccionario, por el monto, o por la fecha.
pub proof fn ley_orden_de_filas(f: FilaGasto, g: FilaGasto, columna: ColumnaOrden, direccion: DireccionOrden)
    requires
        orden_claves(clave_fila(f, columna), clave_fila(g, columna), direccion) != Ordering::Greater,
    ensures
        filas_en_orden(f, g, columna, direccion),
{
    match columna {
        ColumnaOrden::Descripcion => {
            assert(clave_fila(f, columna) == codigos(f.descripcion@));
            assert(clave_fila(g, columna) == codigos(g.descripcion@));
            lema_textos_en_orden(f.descripcion@, g.descripcion@, direccion);
        },
        ColumnaOrden::Persona => {
            assert(clave_fila(f, columna) == codigos(f.persona@));
            assert(clave_fila(g, columna) == codigos(g.persona@));
            lema_textos_en_orden(f.persona@, g.persona@, direccion);
        },
        ColumnaOrden::Categoria => {
            assert(clave_fila(f, columna) == codigos(f.categoria@));
            assert(clave_fila(g, columna) == codigos(g.categoria@));
            lema_textos_en_orden(f.categoria@, g.categoria@, direccion);
        },
        ColumnaOrden::Monto => {
            let ka = clave_numero(f.monto);
            let kb = clave_numero(g.monto);
            assert(ka.drop_first() =~= Seq::<int>::empty());
            assert(kb.drop_first() =~= Seq::<int>::empty());
            assert(orden_lexico(ka.drop_first(), kb.drop_first()) == Ordering::Equal);
        },
        ColumnaOrden::Fecha => {
            if let (Some(x), Some(y)) = (fecha_en_texto(f.fecha@), fecha_en_texto(g.fecha@)) {
                let ka = clave_fecha(x.0, x.1, x.2);
                let kb = clave_fecha(y.0, y.1, y.2);
                lema_clave_fecha(x.0, x.1, x.2);
                lema_clave_fecha(y.0, y.1, y.2);
                let a1 = ka.drop_first();
                let b1 = kb.drop_first();
                let a2 = a1.drop_first();
                let b2 = b1.drop_first();
                assert(orden_lexico(a2.drop_first(), b2.drop_first()) == Ordering::Equal);
                assert(orden_lexico(a2, b2) == (if a2[0] < b2[0] {
                    Ordering::Less
                } else if a2[0] > b2[0] {
                    Ordering::Greater
                } else {
                    Ordering::Equal
                }));
                assert(orden_lexico(a1, b1) == (if a1[0] < b1[0] {
                    Ordering::Less
                } else if a1[0] > b1[0] {
                    Ordering::Greater
                } else {
                    orden_lexico(a2, b2)
                }));
                assert(orden_lexico(ka, kb) == (if ka[0] < kb[0] {
                    Ordering::Less
                } else if ka[0] > kb[0] {
                    Ordering::Greater
                } else {
                    orden_lexico(a1, b1)
                }));
                assert(clave_fila(f, columna) == ka);
                assert(clave_fila(g, columna) == kb);
            }
        },
    }
}

/// Insertar en su lugar un índice mayor que todos conserva el orden, la
/// estabilidad y la ausencia de repetidos.
pub proof fn lema_insertar(k: Seq<Seq<int>>, r: Seq<int>, x: int, p: int, direccion: DireccionOrden)
    requires
        forall|q: int| 0 <= q < r.len() ==> 0 <= #[trigger] r[q] < x,
        ordenada(k, r, direccion),
        estable(k, r, direccion),
        sin_repetidos(r),
        0 <= p <= r.len(),
        forall|q: int| p <= q < r.len() ==> orden_claves(k[#[trigger] r[q]], k[x], direccion) == Ordering::Greater,
        p == 0 || orden_claves(k[r[p - 1]], k[x], direccion) != Ordering::Greater,
    ensures
        ordenada(k, r.insert(p, x), direccion),
        estable(k, r.insert(p, x), direccion),
        sin_repetidos(r.insert(p, x)),
        forall|y: int| r.insert(p, x).contains(y) <==> (r.contains(y) || y == x),
{
    let s = r.insert(p, x);
    assert forall|i: int, j: int| #![trigger s[i], s[j]] 0 <= i < j < s.len() implies
        orden_claves(k[s[i]], k[s[j]], direccion) != Ordering::Greater
        && (orden_claves(k[s[i]], k[s[j]], direccion) == Ordering::Equal ==> s[i] < s[j])
        && s[i] != s[j] by {
        if j < p {
            assert(s[i] == r[i] && s[j] == r[j]);
        } else if i > p {
            assert(s[i] == r[i - 1] && s[j] == r[j - 1]);
        } else if i < p && j > p {
            assert(s[i] == r[i] && s[j] == r[j - 1]);
        } else if j == p {
            assert(s[i] == r[i] && s[j] == x);
            if i < p - 1 {
                assert(r[i] == r[i] && r[p - 1] == r[p - 1]);
                lema_claves(k[r[i]], k[r[p - 1]], k[x], direccion);
            }
            lema_claves(k[r[i]], k[x], k[x], direccion);
        } else {
            assert(i == p);
            assert(s[i] == x && s[j] == r[j - 1]);
            assert(orden_claves(k[r[j - 1]], k[x], direccion) == Ordering::Greater);
            lema_claves(k[x], k[r[j - 1]], k[x], direccion);
        }
    }
    assert forall|y: int| s.contains(y) <==> (r.contains(y) || y == x) by {
        if s.contains(y) {
            let q = choose|q: int| 0 <= q < s.len() && s[q] == y;
            if q < p {
                assert(r[q] == y);
            } else if q > p {
                assert(r[q - 1] == y);
            }
        }
        if r.contains(y) {
            let q = choose|q: int| 0 <= q < r.len() && r[q] == y;
            if q < p {
                assert(s[q] == y);
            } else {
                assert(s[q + 1] == y);
            }
        }
        if y == x {
            assert(s[p] == x);
        }
    }
}

/// Da vuelta un orden.
fn invertir_orden(o: Ordering) -> (r: Ordering)
    ensures
        r == invertir(o),
{
    match o {
        Ordering::Less => Ordering::Greater,
        Ordering::Equal => Ordering::Equal,
        Ordering::Greater => Ordering::Less,
    }
}

/// Compara dos números de 64 bits.
fn comparar_u64(a: u64, b: u64) -> (r: Ordering)
    ensures
        r == orden_lexico(clave_numero(a), clave_numero(b)),
{
    proof {
        assert(clave_numero(a).drop_first() =~= Seq::<int>::empty());
        assert(clave_numero(b).drop_first() =~= Seq::<int>::empty());
        assert(orden_lexico(Seq::<int>::empty(), Seq::<int>::empty()) == Ordering::Equal);
        assert(clave_numero(a).len() == 1 && clave_numero(b).len() == 1);
    }
    if a < b {
        Ordering::Less
    } else if a == b {
        Ordering::Equal
    } else {
        Ordering::Greater
    }
}

/// Compara dos fechas por año, mes y día.
fn comparar_fechas(fa: (u32, u32, i32), fb: (u32, u32, i32)) -> (r: Ordering)
    ensures
        r == orden_lexico(clave_fecha(fa.0, fa.1, fa.2), clave_fecha(fb.0, fb.1, fb.2)),
{
    let ghost ka = clave_fecha(fa.0, fa.1, fa.2);
    let ghost kb = clave_fecha(fb.0, fb.1, fb.2);
    proof {
        lema_clave_fecha(fa.0, fa.1, fa.2);
        lema_clave_fecha(fb.0, fb.1, fb.2);
        let a1 = ka.drop_first();
        let b1 = kb.drop_first();
        let a2 = a1.drop_first();
        let b2 = b1.drop_first();
        let a3 = a2.drop_first();
        let b3 = b2.drop_first();
        assert(orden_lexico(a3, b3) == Ordering::Equal);
        assert(orden_lexico(a2, b2) == (if a2[0] < b2[0] {
            Ordering::Less
        } else if a2[0] > b2[0] {
            Ordering::Greater
        } else {
            orden_lexico(a3, b3)
        }));
        assert(orden_lexico(a1, b1) == (if a1[0] < b1[0] {
            Ordering::Less
        } else if a1[0] > b1[0] {
            Ordering::Greater
        } else {
            orden_lexico(a2, b2)
        }));
        assert(orden_lexico(ka, kb) == (if ka[0] < kb[0] {
            Ordering::Less
        } else if ka[0] > kb[0] {
            Ordering::Greater
        } else {
            orden_lexico(a1, b1)
        }));
    }
    if fa.2 < fb.2 {
        Ordering::Less
    } else if fa.2 > fb.2 {
        Ordering::Greater
    } else if fa.1 < fb.1 {
        Ordering::Less
    } else if fa.1 > fb.1 {
        Ordering::Greater
    } else if fa.0 < fb.0 {
        Ordering::Less
    } else if fa.0 > fb.0 {
        Ordering::Greater
    } else {
        Ordering::Equal
    }
}

/// Compara dos filas por la columna y en el sentido dados; `fa` y `fb`
/// son sus fechas ya leídas.
fn comparar_filas(
    a: &FilaGasto,
    fa: (u32, u32, i32),
    b: &FilaGasto,
    fb: (u32, u32, i32),
    columna: ColumnaOrden,
    direccion: DireccionOrden,
) -> (r: Ordering)
    requires
        fecha_en_texto(a.fecha@) == Some(fa),
        fecha_en_texto(b.fecha@) == Some(fb),
    ensures
        r == orden_claves(clave_fila(*a, columna), clave_fila(*b, columna), direccion),
{
    let o = match columna {
        ColumnaOrden::Descripcion => {
            proof {
                lema_textos_lexico(a.descripcion@, b.descripcion@);
            }
            comparar_textos(a.descripcion.as_str(), b.descripcion.as_str())
        },
        ColumnaOrden::Monto => comparar_u64(a.monto, b.monto),
        ColumnaOrden::Persona => {
            proof {
                lema_textos_lexico(a.persona@, b.persona@);
            }
            comparar_textos(a.persona.as_str(), b.persona.as_str())
        },
        ColumnaOrden::Categoria => {
            proof {
                lema_textos_lexico(a.categoria@, b.categoria@);
            }
            comparar_textos(a.categoria.as_str(), b.categoria.as_str())
        },
        ColumnaOrden::Fecha => comparar_fechas(fa, fb),
    };
    match direccion {
        DireccionOrden::Ascendente => o,
        DireccionOrden::Descendente => invertir_orden(o),
    }
}

/// Indica si un orden es "mayor".
fn es_mayor(o: Ordering) -> (r: bool)
    ensures
        r == (o == Ordering::Greater),
{
    match o {
        Ordering::Greater => true,
        _ => false,
    }
}

/// Las filas de la tabla de gastos del mes `mes` del año `anio`: los
/// índices de las filas cuya fecha es de ese mes, ordenados por la columna
/// y en el sentido dados; filas con la misma clave quedan en el orden de
/// sus índices.
pub fn filas_visibles(
    filas: &Vec<FilaGasto>,
    mes: u32,
    anio: u32,
    columna: ColumnaOrden,
    direccion: DireccionOrden,
) -> (r: Vec<usize>)
    ensures
        ordenada(claves(filas@, columna), enteros(r@), direccion),
        estable(claves(filas@, columna), enteros(r@), direccion),
        sin_repetidos(enteros(r@)),
        forall|x: int| enteros(r@).contains(x) <==> (0 <= x < filas@.len() && es_del_mes(filas@[x], mes, anio)),
        forall|p: int, q: int|
            #![trigger enteros(r@)[p], enteros(r@)[q]]
            0 <= p < q < r@.len() ==> filas_en_orden(filas@[enteros(r@)[p]], filas@[enteros(r@)[q]], columna, direccion),
{
    let ghost k = claves(filas@, columna);
    let mut r: Vec<usize> = Vec::new();
    let mut fr: Vec<(u32, u32, i32)> = Vec::new();
    let mut i: usize = 0;
    let ghost mut gi: int = 0;
    while i < filas.len()
        invariant
            gi == i,
            i <= filas.len(),
            k == claves(filas@, columna),
            r@.len() == fr@.len(),
            forall|q: int| 0 <= q < r@.len() ==> 0 <= #[trigger] enteros(r@)[q] < gi,
            forall|q: int| 0 <= q < r@.len() ==> fecha_en_texto(filas@[enteros(r@)[q]].fecha@) == Some(#[trigger] fr@[q]),
            ordenada(k, enteros(r@), direccion),
            estable(k, enteros(r@), direccion),
            sin_repetidos(enteros(r@)),
            forall|x: int| enteros(r@).contains(x) <==> (0 <= x < gi && es_del_mes(filas@[x], mes, anio)),
        decreases filas.len() - i,
    {
        let ghost antes = r@;
        match fecha_del_mes(&filas[i], mes, anio) {
            Some(fecha) => {
                let mut p: usize = r.len();
                let ghost mut gp: int = largo(r@);
                let mut listo = false;
                while p > 0 && !listo
                    invariant
                        gp == p,
                        p <= r.len(),
                        r@ == antes,
                        gi == i,
                        i < filas.len(),
                        k == claves(filas@, columna),
                        r@.len() == fr@.len(),
                        fecha_en_texto(filas@[gi].fecha@) == Some(fecha),
                        forall|q: int| 0 <= q < r@.len() ==> 0 <= #[trigger] enteros(r@)[q] < gi,
                        forall|q: int| 0 <= q < r@.len() ==> fecha_en_texto(filas@[enteros(r@)[q]].fecha@) == Some(#[trigger] fr@[q]),
                        forall|q: int| gp <= q < r@.len() ==> orden_claves(k[#[trigger] enteros(r@)[q]], k[gi], direccion) == Ordering::Greater,
                        listo ==> p > 0 && orden_claves(k[enteros(r@)[gp - 1]], k[gi], direccion) != Ordering::Greater,
                    decreases p + (if listo { 0int } else { 1int }),
                {
                    assert(enteros(r@)[gp - 1] == r@[gp - 1]);
                    let o = comparar_filas(&filas[r[p - 1]], fr[p - 1], &filas[i], fecha, columna, direccion);
                    assert(k[enteros(r@)[gp - 1]] == clave_fila(filas@[enteros(r@)[gp - 1]], columna));
                    assert(k[gi] == clave_fila(filas@[gi], columna));
                    if es_mayor(o) {
                        p = p - 1;
                        proof {
                            gp = gp - 1;
                        }
                    } else {
                        listo = true;
                    }
                }
                proof {
                    lema_enteros_insert(r@, gp, i);
                    lema_insertar(k, enteros(r@), gi, gp, direccion);
                }
                r.insert(p, i);
                fr.insert(p, fecha);
                proof {
                    assert forall|q: int| 0 <= q < r@.len() implies fecha_en_texto(filas@[enteros(r@)[q]].fecha@) == Some(#[trigger] fr@[q]) by {
                        if q < gp {
                            assert(enteros(r@)[q] == enteros(antes)[q]);
                        } else if q > gp {
                            assert(enteros(r@)[q] == enteros(antes)[q - 1]);
                        }
                    }
                    assert forall|q: int| 0 <= q < r@.len() implies 0 <= #[trigger] enteros(r@)[q] < gi + 1 by {
                        if q < gp {
                            assert(enteros(r@)[q] == enteros(antes)[q]);
                        } else if q > gp {
                            assert(enteros(r@)[q] == enteros(antes)[q - 1]);
                        }
                    }
                    assert(es_del_mes(filas@[gi], mes, anio));
                    assert(enteros(r@) == enteros(antes).insert(gp, gi));
                    assert forall|x: int| enteros(r@).contains(x) <==> (0 <= x < gi + 1 && es_del_mes(filas@[x], mes, anio)) by {
                        assert(enteros(r@).contains(x) <==> (enteros(antes).contains(x) || x == gi));
                    }
                }
            },
            None => {
                proof {
                    assert(!es_del_mes(filas@[gi], mes, anio));
                }
            },
        }
        proof {
            assert forall|x: int| enteros(r@).contains(x) <==> (0 <= x < gi + 1 && es_del_mes(filas@[x], mes, anio)) by {
                if x == gi && enteros(antes).contains(x) {
                    let q = choose|q: int| 0 <= q < enteros(antes).len() && enteros(antes)[q] == x;
                    assert(enteros(antes)[q] < gi);
                }
            }
        }
        i = i + 1;
        proof {
            gi = gi + 1;
        }
    }
    proof {
        assert forall|p: int, q: int| #![trigger enteros(r@)[p], enteros(r@)[q]] 0 <= p < q < r@.len() implies
            filas_en_orden(filas@[enteros(r@)[p]], filas@[enteros(r@)[q]], columna, direccion) by {
            let e = enteros(r@);
            assert(e.contains(e[p]) && e.contains(e[q]));
            assert(orden_claves(k[e[p]], k[e[q]], direccion) != Ordering::Greater);
            assert(k[e[p]] == clave_fila(filas@[e[p]], columna));
            assert(k[e[q]] == clave_fila(filas@[e[q]], columna));
            ley_orden_de_filas(filas@[e[p]], filas@[e[q]], columna, direccion);
        }
    }
    r
}

} // verus!
