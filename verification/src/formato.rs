//! Nombres de meses, rangos de años y formato de montos.

use vstd::prelude::*;
use crate::numeros::{caracter_digito, decimal, decimal_de, digito, es_digito, lema_decimal};
use crate::texto::{caracteres, empujar, textos_iguales};

verus! {

/// Los nombres de los meses, de enero a diciembre.
pub const MESES: [&'static str; 12] = [
    "Enero",
    "Febrero",
    "Marzo",
    "Abril",
    "Mayo",
    "Junio",
    "Julio",
    "Agosto",
    "Septiembre",
    "Octubre",
    "Noviembre",
    "Diciembre",
];

/// El nombre del mes `n` (1 es enero, 12 es diciembre).
pub open spec fn nombre_del_mes(n: int) -> Seq<char> {
    if n == 1 {
        "Enero"@
    } else if n == 2 {
        "Febrero"@
    } else if n == 3 {
        "Marzo"@
    } else if n == 4 {
        "Abril"@
    } else if n == 5 {
        "Mayo"@
    } else if n == 6 {
        "Junio"@
    } else if n == 7 {
        "Julio"@
    } else if n == 8 {
        "Agosto"@
    } else if n == 9 {
        "Septiembre"@
    } else if n == 10 {
        "Octubre"@
    } else if n == 11 {
        "Noviembre"@
    } else {
        "Diciembre"@
    }
}

/// El primer mes desde `k` hasta diciembre cuyo nombre es `nombre`.
pub open spec fn mes_desde(nombre: Seq<char>, k: int) -> Option<u32>
    decreases 13 - k,
{
    if k < 1 || k > 12 {
        None
    } else if nombre == nombre_del_mes(k) {
        Some(k as u32)
    } else {
        mes_desde(nombre, k + 1)
    }
}

/// El número del mes (1 a 12) que se llama `nombre`, si alguno se llama así.
pub open spec fn mes_de_nombre(nombre: Seq<char>) -> Option<u32> {
    mes_desde(nombre, 1)
}

/// El número del mes (1 a 12) cuyo nombre es `nombre`, si existe.
pub fn numero_mes(nombre: &str) -> (r: Option<u32>)
    ensures
        r == mes_de_nombre(nombre@),
        match r {
            Some(n) => 1 <= n <= 12 && nombre@ == nombre_del_mes(n as int),
            None => forall|n: int| 1 <= n <= 12 ==> nombre@ != nombre_del_mes(n),
        },
{
    let mut i: usize = 0;
    while i < 12
        invariant
            i <= 12,
            forall|k: int| 1 <= k <= i ==> nombre@ != nombre_del_mes(k),
            mes_de_nombre(nombre@) == mes_desde(nombre@, i + 1),
        decreases 12 - i,
    {
        if textos_iguales(nombre, MESES[i]) {
            return Some(i as u32 + 1);
        }
        i = i + 1;
    }
    None
}

/// El nombre del mes `numero` (1 es enero, 12 es diciembre), si existe.
pub fn nombre_mes(numero: u32) -> (r: Option<&'static str>)
    ensures
        match r {
            Some(t) => 1 <= numero <= 12 && t@ == nombre_del_mes(numero as int),
            None => numero == 0 || numero > 12,
        },
{
    if numero == 0 || numero > 12 {
        None
    } else {
        Some(MESES[(numero - 1) as usize])
    }
}

/// Los once años desde cinco antes hasta cinco después de `anio`.
pub fn anios_alrededor(anio: i32) -> (r: Vec<i32>)
    requires
        i32::MIN + 5 <= anio <= i32::MAX - 5,
    ensures
        r@.len() == 11,
        forall|i: int| 0 <= i < 11 ==> #[trigger] r@[i] == anio - 5 + i,
{
    let mut r: Vec<i32> = Vec::new();
    let mut k: i32 = 0;
    while k < 11
        invariant
            0 <= k <= 11,
            i32::MIN + 5 <= anio <= i32::MAX - 5,
            r@.len() == k,
            forall|i: int| 0 <= i < r@.len() ==> #[trigger] r@[i] == anio - 5 + i,
        decreases 11 - k,
    {
        r.push(anio - 5 + k);
        k = k + 1;
    }
    r
}

/// Los dígitos de `d` agrupados de a tres desde la derecha, con un punto
/// entre cada grupo.
pub open spec fn agrupar_miles(d: Seq<char>) -> Seq<char>
    decreases d.len(),
{
    if d.len() <= 3 {
        d
    } else {
        agrupar_miles(d.take(d.len() - 3)) + seq!['.'] + d.skip(d.len() - 3)
    }
}

/// Un número menor que cien escrito con dos dígitos.
pub open spec fn dos_digitos(n: nat) -> Seq<char> {
    seq![digito((n / 10) as int), digito((n % 10) as int)]
}

/// Un monto escrito a partir de sus centavos: signo `-` si es negativo,
/// `$`, la parte entera con los miles separados por puntos y, si hay
/// centavos, una coma y los centavos con dos dígitos.
pub open spec fn texto_monto(negativo: bool, centavos: nat) -> Seq<char> {
    let signo = if negativo { seq!['-'] } else { Seq::<char>::empty() };
    let entero = agrupar_miles(decimal(centavos / 100));
    if centavos % 100 == 0 {
        signo + seq!['$'] + entero
    } else {
        signo + seq!['$'] + entero + seq![','] + dos_digitos(centavos % 100)
    }
}

/// El texto sin sus puntos.
pub open spec fn sin_puntos(s: Seq<char>) -> Seq<char>
    decreases s.len(),
{
    if s.len() == 0 {
        seq![]
    } else if s.last() == '.' {
        sin_puntos(s.drop_last())
    } else {
        sin_puntos(s.drop_last()).push(s.last())
    }
}

/// `g` tiene un punto entre cada grupo de tres caracteres contados desde la
/// derecha, y en ningún otro lugar: el primer grupo tiene de uno a tres.
pub open spec fn miles_separados(g: Seq<char>) -> bool {
    &&& g.len() % 4 != 0
    &&& forall|i: int| #![trigger g[i]] 0 <= i < g.len() ==> (g[i] == '.' <==> (i > 0 && (g.len() - i) % 4 == 0))
}

/// Quitar los puntos de una concatenación es quitarlos de cada parte.
proof fn lema_sin_puntos_concat(a: Seq<char>, b: Seq<char>)
    ensures
        sin_puntos(a + b) == sin_puntos(a) + sin_puntos(b),
    decreases b.len(),
{
    if b.len() == 0 {
        assert(a + b =~= a);
        assert(sin_puntos(a) + sin_puntos(b) =~= sin_puntos(a));
    } else {
        lema_sin_puntos_concat(a, b.drop_last());
        assert((a + b).drop_last() =~= a + b.drop_last());
        assert((a + b).last() == b.last());
        if b.last() != '.' {
            assert(sin_puntos(a) + sin_puntos(b.drop_last()).push(b.last())
                =~= (sin_puntos(a) + sin_puntos(b.drop_last())).push(b.last()));
        }
    }
}

/// Un texto sin puntos queda igual al quitarle los puntos.
proof fn lema_sin_puntos_nada(d: Seq<char>)
    requires
        forall|i: int| 0 <= i < d.len() ==> d[i] != '.',
    ensures
        sin_puntos(d) == d,
    decreases d.len(),
{
    if d.len() > 0 {
        lema_sin_puntos_nada(d.drop_last());
        assert(d.drop_last().push(d.last()) =~= d);
    }
}

/// Agrupar de a tres un texto sin puntos deja los puntos en su lugar, y
/// quitarlos devuelve el texto.
proof fn lema_agrupar(d: Seq<char>)
    requires
        d.len() >= 1,
        forall|i: int| 0 <= i < d.len() ==> d[i] != '.',
    ensures
        miles_separados(agrupar_miles(d)),
        sin_puntos(agrupar_miles(d)) == d,
        agrupar_miles(d).len() >= 1,
    decreases d.len(),
{
    if d.len() <= 3 {
        lema_sin_puntos_nada(d);
    } else {
        let p = d.take(d.len() - 3);
        let u = d.skip(d.len() - 3);
        lema_agrupar(p);
        let a = agrupar_miles(p);
        let g = agrupar_miles(d);
        assert(g == a + seq!['.'] + u);
        assert forall|i: int| #![trigger g[i]] 0 <= i < g.len() implies (g[i] == '.' <==> (i > 0 && (g.len() - i) % 4 == 0)) by {
            if i < a.len() {
                assert(g[i] == a[i]);
            } else if i > a.len() {
                assert(g[i] == u[i - a.len() - 1]);
            }
        }
        lema_sin_puntos_nada(u);
        lema_sin_puntos_concat(a, seq!['.']);
        lema_sin_puntos_concat(a + seq!['.'], u);
        let punto = seq!['.'];
        assert(punto.drop_last() =~= Seq::<char>::empty());
        assert(punto.last() == '.');
        assert(sin_puntos(Seq::<char>::empty()) == Seq::<char>::empty());
        assert(sin_puntos(punto) == sin_puntos(punto.drop_last()));
        assert(sin_puntos(punto) =~= Seq::<char>::empty());
        assert(p + u =~= d);
    }
}

/// Ley: un monto se escribe como `-$` si es negativo o `$` si no, seguido
/// de la parte entera con un punto entre cada grupo de tres cifras
/// contadas desde la derecha (sin los puntos, es la parte entera escrita en
/// decimal) y, si hay centavos, de una coma y los centavos en dos cifras.
pub proof fn ley_formato_monto(negativo: bool, centavos: nat)
    ensures
        exists|g: Seq<char>|
            #[trigger] miles_separados(g) && sin_puntos(g) == decimal(centavos / 100)
                && texto_monto(negativo, centavos) == (if negativo { seq!['-', '$'] } else { seq!['$'] }) + g + (
                if centavos % 100 == 0 {
                    Seq::<char>::empty()
                } else {
                    seq![',', digito(((centavos % 100) / 10) as int), digito(((centavos % 100) % 10) as int)]
                }),
{
    let d = decimal(centavos / 100);
    lema_decimal(centavos / 100);
    assert forall|i: int| 0 <= i < d.len() implies d[i] != '.' by {
        assert(es_digito(d[i]));
    }
    lema_agrupar(d);
    let g = agrupar_miles(d);
    let signo = if negativo { seq!['-'] } else { Seq::<char>::empty() };
    assert(signo + seq!['$'] =~= (if negativo { seq!['-', '$'] } else { seq!['$'] }));
    if centavos % 100 == 0 {
        assert(texto_monto(negativo, centavos) =~= (if negativo { seq!['-', '$'] } else { seq!['$'] }) + g + Seq::<char>::empty());
    } else {
        assert(texto_monto(negativo, centavos) =~= (if negativo { seq!['-', '$'] } else { seq!['$'] }) + g
            + seq![',', digito(((centavos % 100) / 10) as int), digito(((centavos % 100) % 10) as int)]);
    }
}

/// Agrega al final de `s` los primeros `hasta` dígitos de `d`, agrupados de
/// a tres desde la derecha.
fn escribir_agrupado(d: &Vec<char>, hasta: usize, s: &mut String)
    requires
        hasta <= d.len(),
    ensures
        final(s)@ == old(s)@ + agrupar_miles(d@.take(hasta as int)),
    decreases hasta,
{
    let ghost t = d@.take(hasta as int);
    let inicio: usize = if hasta <= 3 {
        0
    } else {
        escribir_agrupado(d, hasta - 3, s);
        empujar(s, '.');
        hasta - 3
    };
    let ghost medio = s@;
    let mut i: usize = inicio;
    while i < hasta
        invariant
            inicio <= i <= hasta,
            hasta <= d.len(),
            s@ == medio + d@.subrange(inicio as int, i as int),
        decreases hasta - i,
    {
        empujar(s, d[i]);
        assert(d@.subrange(inicio as int, i + 1) =~= d@.subrange(inicio as int, i as int).push(d@[i as int]));
        i = i + 1;
    }
    proof {
        if hasta > 3 {
            assert(t.take(t.len() - 3) =~= d@.take(hasta - 3));
            assert(t.skip(t.len() - 3) =~= d@.subrange(hasta - 3, hasta as int));
        } else {
            assert(t =~= d@.subrange(0, hasta as int));
        }
        assert(final(s)@ =~= old(s)@ + agrupar_miles(t));
    }
}

/// Escribe un monto a partir de su signo y de su valor absoluto en
/// centavos, con los miles separados por puntos y los centavos tras una
/// coma (se omiten si son cero).
pub fn formatear_centavos(negativo: bool, centavos: u64) -> (r: String)
    ensures
        r@ == texto_monto(negativo, centavos as nat),
        negativo ==> r@[0] == '-' && r@[1] == '$',
        !negativo ==> r@[0] == '$',
        exists|g: Seq<char>|
            #[trigger] miles_separados(g) && sin_puntos(g) == decimal(centavos as nat / 100)
                && r@ == (if negativo { seq!['-', '$'] } else { seq!['$'] }) + g + (
                if centavos % 100 == 0 {
                    Seq::<char>::empty()
                } else {
                    seq![',', digito(((centavos % 100) / 10) as int), digito(((centavos % 100) % 10) as int)]
                }),
{
    proof {
        ley_formato_monto(negativo, centavos as nat);
    }
    let parte_entera = centavos / 100;
    let parte_decimal = centavos % 100;
    let digitos = decimal_de(parte_entera);
    let lista = caracteres(digitos.as_str());
    let mut r = String::new();
    if negativo {
        empujar(&mut r, '-');
    }
    empujar(&mut r, '$');
    let ghost prefijo = r@;
    escribir_agrupado(&lista, lista.len(), &mut r);
    assert(lista@.take(lista.len() as int) =~= decimal(parte_entera as nat));
    if parte_decimal != 0 {
        empujar(&mut r, ',');
        empujar(&mut r, caracter_digito(parte_decimal / 10));
        empujar(&mut r, caracter_digito(parte_decimal % 10));
    }
    assert(r@ =~= texto_monto(negativo, centavos as nat));
    r
}

/// Los nombres de los meses son distintos entre sí.
proof fn lema_meses_distintos(a: int, b: int)
    requires
        1 <= a <= 12,
        1 <= b <= 12,
        a != b,
    ensures
        nombre_del_mes(a) != nombre_del_mes(b),
{
    broadcast use vstd::string::group_string_axioms;

    reveal_strlit("Enero");
    reveal_strlit("Febrero");
    reveal_strlit("Marzo");
    reveal_strlit("Abril");
    reveal_strlit("Mayo");
    reveal_strlit("Junio");
    reveal_strlit("Julio");
    reveal_strlit("Agosto");
    reveal_strlit("Septiembre");
    reveal_strlit("Octubre");
    reveal_strlit("Noviembre");
    reveal_strlit("Diciembre");
    let x = nombre_del_mes(a);
    let y = nombre_del_mes(b);
    if x.len() == y.len() {
        assert(x[0] != y[0] || x[2] != y[2]);
    }
}

/// Ley: el número de un mes se obtiene de su nombre, y el nombre de su número.
pub proof fn ley_meses_inversos(n: int)
    requires
        1 <= n <= 12,
    ensures
        mes_de_nombre(nombre_del_mes(n)) == Some(n as u32),
{
    assert forall|k: int| 1 <= k < n implies nombre_del_mes(n) != nombre_del_mes(k) by {
        lema_meses_distintos(n, k);
    }
    lema_mes_desde(nombre_del_mes(n), 1, n);
}

/// El número de mes que se encuentra buscando desde `k` está entre 1 y 12.
pub proof fn lema_mes_en_rango(nombre: Seq<char>, k: int)
    ensures
        mes_desde(nombre, k) matches Some(x) ==> 1 <= x <= 12,
    decreases 13 - k,
{
    if 1 <= k <= 12 && nombre != nombre_del_mes(k) {
        lema_mes_en_rango(nombre, k + 1);
    }
}

/// Buscar el nombre del mes `n` desde un mes anterior da `n` si ningún
/// mes intermedio se llama igual.
proof fn lema_mes_desde(nombre: Seq<char>, k: int, n: int)
    requires
        1 <= k <= n <= 12,
        nombre == nombre_del_mes(n),
        forall|i: int| k <= i < n ==> nombre != nombre_del_mes(i),
    ensures
        mes_desde(nombre, k) == Some(n as u32),
    decreases n - k,
{
    if k < n {
        lema_mes_desde(nombre, k + 1, n);
    }
}

} // verus!
