//! Precedencia entre versiones: primero major, minor y patch; una versión
//! sin prerelease va después de la misma con prerelease; entre
//! prereleases se comparan los identificadores uno a uno.

use std::cmp::Ordering;
use vstd::prelude::*;
use vstd::string::*;
use crate::version::{Identificador, IdentificadorPrerelease, Version, VistaVersion, vista_identificadores, vista_version};

verus! {

/// El orden inverso.
pub open spec fn invertir(o: Ordering) -> Ordering {
    match o {
        Ordering::Less => Ordering::Greater,
        Ordering::Equal => Ordering::Equal,
        Ordering::Greater => Ordering::Less,
    }
}

/// El orden entre dos números de 64 bits.
pub open spec fn orden_numeros(a: u64, b: u64) -> Ordering {
    if a < b {
        Ordering::Less
    } else if a == b {
        Ordering::Equal
    } else {
        Ordering::Greater
    }
}

/// El orden entre dos longitudes.
pub open spec fn orden_naturales(a: nat, b: nat) -> Ordering {
    if a < b {
        Ordering::Less
    } else if a == b {
        Ordering::Equal
    } else {
        Ordering::Greater
    }
}

/// El orden lexicográfico entre dos textos, carácter por carácter; un
/// texto va antes que los que lo extienden.
pub open spec fn orden_textos(a: Seq<char>, b: Seq<char>) -> Ordering
    decreases a.len(),
{
    if a.len() == 0 || b.len() == 0 {
        orden_naturales(a.len(), b.len())
    } else if a[0] < b[0] {
        Ordering::Less
    } else if a[0] > b[0] {
        Ordering::Greater
    } else {
        orden_textos(a.drop_first(), b.drop_first())
    }
}


/// Indica si el texto `a` va antes que `b` en el orden del diccionario, el
/// de `String::cmp`: en la primera posición en que difieren, el carácter de
/// `a` es menor, o `a` es un prefijo propio de `b`.
pub open spec fn antes_en_diccionario(a: Seq<char>, b: Seq<char>) -> bool {
    exists|i: int|
        0 <= i <= a.len() && i <= b.len() && #[trigger] a.take(i) == b.take(i) && (
        (i == a.len() && i < b.len()) || (i < a.len() && i < b.len() && a[i] < b[i]))
}

/// El orden entre dos identificadores de prerelease: los numéricos se
/// comparan por valor y van antes que los de texto; los de texto se
/// comparan lexicográficamente.
pub open spec fn orden_identificadores(a: Identificador, b: Identificador) -> Ordering {
    match (a, b) {
        (Identificador::Numerico(x), Identificador::Numerico(y)) => orden_numeros(x, y),
        (Identificador::Numerico(_), Identificador::Texto(_)) => Ordering::Less,
        (Identificador::Texto(_), Identificador::Numerico(_)) => Ordering::Greater,
        (Identificador::Texto(x), Identificador::Texto(y)) => orden_textos(x, y),
    }
}

/// El orden entre dos listas de identificadores: el del primer par que
/// difiere, o el de las longitudes si una es prefijo de la otra.
pub open spec fn orden_listas(a: Seq<Identificador>, b: Seq<Identificador>) -> Ordering
    decreases a.len(),
{
    if a.len() == 0 || b.len() == 0 {
        orden_naturales(a.len(), b.len())
    } else if orden_identificadores(a[0], b[0]) != Ordering::Equal {
        orden_identificadores(a[0], b[0])
    } else {
        orden_listas(a.drop_first(), b.drop_first())
    }
}

/// La precedencia entre dos versiones.
pub open spec fn orden_versiones(a: VistaVersion, b: VistaVersion) -> Ordering {
    if a.0 != b.0 {
        orden_numeros(a.0, b.0)
    } else if a.1 != b.1 {
        orden_numeros(a.1, b.1)
    } else if a.2 != b.2 {
        orden_numeros(a.2, b.2)
    } else if a.3.len() == 0 && b.3.len() == 0 {
        Ordering::Equal
    } else if a.3.len() == 0 {
        Ordering::Greater
    } else if b.3.len() == 0 {
        Ordering::Less
    } else {
        orden_listas(a.3, b.3)
    }
}

/// Compara dos números de 64 bits.
fn comparar_numeros(a: u64, b: u64) -> (r: Ordering)
    ensures
        r == orden_numeros(a, b),
{
    if a < b {
        Ordering::Less
    } else if a == b {
        Ordering::Equal
    } else {
        Ordering::Greater
    }
}

/// Compara dos textos carácter por carácter.
pub(crate) fn comparar_textos(a: &str, b: &str) -> (r: Ordering)
    ensures
        r == orden_textos(a@, b@),
{
    let na = a.unicode_len();
    let nb = b.unicode_len();
    let mut i: usize = 0;
    let ghost mut j: int = 0;
    assert(a@.skip(0) =~= a@);
    assert(b@.skip(0) =~= b@);
    while i < na && i < nb
        invariant
            na == a@.len(),
            nb == b@.len(),
            i <= na,
            i <= nb,
            j == i,
            orden_textos(a@, b@) == orden_textos(a@.skip(j), b@.skip(j)),
        decreases na - i,
    {
        let x = a.get_char(i);
        let y = b.get_char(i);
        assert(a@.skip(j)[0] == x);
        assert(b@.skip(j)[0] == y);
        if x < y {
            return Ordering::Less;
        }
        if x > y {
            return Ordering::Greater;
        }
        assert(a@.skip(j).drop_first() =~= a@.skip(j + 1));
        assert(b@.skip(j).drop_first() =~= b@.skip(j + 1));
        i = i + 1;
        proof {
            j = j + 1;
        }
    }
    if na < nb {
        Ordering::Less
    } else if na == nb {
        Ordering::Equal
    } else {
        Ordering::Greater
    }
}

/// Compara dos identificadores de prerelease.
fn comparar_identificadores(a: &IdentificadorPrerelease, b: &IdentificadorPrerelease) -> (r: Ordering)
    ensures
        r == orden_identificadores(a@, b@),
{
    match (a, b) {
        (IdentificadorPrerelease::Numerico(x), IdentificadorPrerelease::Numerico(y)) => {
            comparar_numeros(*x, *y)
        },
        (IdentificadorPrerelease::Numerico(_), IdentificadorPrerelease::Texto(_)) => Ordering::Less,
        (IdentificadorPrerelease::Texto(_), IdentificadorPrerelease::Numerico(_)) => Ordering::Greater,
        (IdentificadorPrerelease::Texto(x), IdentificadorPrerelease::Texto(y)) => {
            comparar_textos(x.as_str(), y.as_str())
        },
    }
}

/// Compara dos versiones según su precedencia: major, minor y patch en
/// ese orden; sin prerelease va después que con prerelease; dos
/// prereleases se comparan identificador por identificador y, si uno es
/// prefijo del otro, el más corto va antes.
pub fn comparar_versiones(a: &Version, b: &Version) -> (r: Ordering)
    ensures
        r == orden_versiones(vista_version(*a), vista_version(*b)),
        a.0 < b.0 ==> r == Ordering::Less,
        a.0 > b.0 ==> r == Ordering::Greater,
        a.0 == b.0 && a.1 < b.1 ==> r == Ordering::Less,
        a.0 == b.0 && a.1 > b.1 ==> r == Ordering::Greater,
        a.0 == b.0 && a.1 == b.1 && a.2 < b.2 ==> r == Ordering::Less,
        a.0 == b.0 && a.1 == b.1 && a.2 > b.2 ==> r == Ordering::Greater,
{
    match comparar_numeros(a.0, b.0) {
        Ordering::Equal => {},
        orden => {
            return orden;
        },
    }
    match comparar_numeros(a.1, b.1) {
        Ordering::Equal => {},
        orden => {
            return orden;
        },
    }
    match comparar_numeros(a.2, b.2) {
        Ordering::Equal => {},
        orden => {
            return orden;
        },
    }
    let ia = &a.3;
    let ib = &b.3;
    if ia.len() == 0 && ib.len() == 0 {
        return Ordering::Equal;
    }
    if ia.len() == 0 {
        return Ordering::Greater;
    }
    if ib.len() == 0 {
        return Ordering::Less;
    }
    let ghost va = vista_identificadores(ia@);
    let ghost vb = vista_identificadores(ib@);
    let mut i: usize = 0;
    let ghost mut j: int = 0;
    assert(va.skip(0) =~= va);
    assert(vb.skip(0) =~= vb);
    while i < ia.len() && i < ib.len()
        invariant
            a.0 == b.0,
            a.1 == b.1,
            a.2 == b.2,
            ia@ == a.3@,
            ib@ == b.3@,
            ia.len() > 0,
            ib.len() > 0,
            va == vista_identificadores(ia@),
            vb == vista_identificadores(ib@),
            i <= ia.len(),
            i <= ib.len(),
            j == i,
            orden_listas(va, vb) == orden_listas(va.skip(j), vb.skip(j)),
        decreases ia.len() - i,
    {
        assert(va.skip(j)[0] == ia@[j]@);
        assert(vb.skip(j)[0] == ib@[j]@);
        match comparar_identificadores(&ia[i], &ib[i]) {
            Ordering::Equal => {},
            orden => {
                return orden;
            },
        }
        assert(va.skip(j).drop_first() =~= va.skip(j + 1));
        assert(vb.skip(j).drop_first() =~= vb.skip(j + 1));
        i = i + 1;
        proof {
            j = j + 1;
        }
    }
    if ia.len() < ib.len() {
        Ordering::Less
    } else if ia.len() == ib.len() {
        Ordering::Equal
    } else {
        Ordering::Greater
    }
}

/// El orden entre textos es antisimétrico y sólo iguala textos iguales.
pub proof fn lema_textos_antisimetrico(a: Seq<char>, b: Seq<char>)
    ensures
        orden_textos(a, b) == invertir(orden_textos(b, a)),
        orden_textos(a, b) == Ordering::Equal <==> a == b,
    decreases a.len(),
{
    if a.len() > 0 && b.len() > 0 {
        lema_textos_antisimetrico(a.drop_first(), b.drop_first());
        if a[0] == b[0] && a.drop_first() == b.drop_first() {
            assert(a =~= seq![a[0]] + a.drop_first());
            assert(b =~= seq![b[0]] + b.drop_first());
        }
    } else if a.len() == 0 && b.len() == 0 {
        assert(a =~= b);
    }
}

/// El orden entre textos es transitivo.
pub proof fn lema_textos_transitivo(a: Seq<char>, b: Seq<char>, c: Seq<char>)
    requires
        orden_textos(a, b) == Ordering::Less,
        orden_textos(b, c) == Ordering::Less,
    ensures
        orden_textos(a, c) == Ordering::Less,
    decreases a.len(),
{
    if a.len() > 0 && b.len() > 0 && c.len() > 0 && a[0] == b[0] && b[0] == c[0] {
        lema_textos_transitivo(a.drop_first(), b.drop_first(), c.drop_first());
    }
}

/// El orden entre identificadores es antisimétrico y sólo iguala
/// identificadores iguales.
pub proof fn lema_identificadores_antisimetrico(a: Identificador, b: Identificador)
    ensures
        orden_identificadores(a, b) == invertir(orden_identificadores(b, a)),
        orden_identificadores(a, b) == Ordering::Equal <==> a == b,
{
    match (a, b) {
        (Identificador::Texto(x), Identificador::Texto(y)) => {
            lema_textos_antisimetrico(x, y);
        },
        _ => {},
    }
}

/// El orden entre identificadores es transitivo.
pub proof fn lema_identificadores_transitivo(a: Identificador, b: Identificador, c: Identificador)
    requires
        orden_identificadores(a, b) == Ordering::Less,
        orden_identificadores(b, c) == Ordering::Less,
    ensures
        orden_identificadores(a, c) == Ordering::Less,
{
    match (a, b, c) {
        (Identificador::Texto(x), Identificador::Texto(y), Identificador::Texto(z)) => {
            lema_textos_transitivo(x, y, z);
        },
        _ => {},
    }
}

/// El orden entre listas de identificadores es antisimétrico y sólo iguala
/// listas iguales.
pub proof fn lema_listas_antisimetrico(a: Seq<Identificador>, b: Seq<Identificador>)
    ensures
        orden_listas(a, b) == invertir(orden_listas(b, a)),
        orden_listas(a, b) == Ordering::Equal <==> a == b,
    decreases a.len(),
{
    if a.len() > 0 && b.len() > 0 {
        lema_identificadores_antisimetrico(a[0], b[0]);
        lema_listas_antisimetrico(a.drop_first(), b.drop_first());
        if a[0] == b[0] && a.drop_first() == b.drop_first() {
            assert(a =~= seq![a[0]] + a.drop_first());
            assert(b =~= seq![b[0]] + b.drop_first());
        }
    } else if a.len() == 0 && b.len() == 0 {
        assert(a =~= b);
    }
}

/// El orden entre listas de identificadores es transitivo.
pub proof fn lema_listas_transitivo(a: Seq<Identificador>, b: Seq<Identificador>, c: Seq<Identificador>)
    requires
        orden_listas(a, b) == Ordering::Less,
        orden_listas(b, c) == Ordering::Less,
    ensures
        orden_listas(a, c) == Ordering::Less,
    decreases a.len(),
{
    if a.len() > 0 && b.len() > 0 && c.len() > 0 {
        lema_identificadores_antisimetrico(a[0], b[0]);
        lema_identificadores_antisimetrico(b[0], c[0]);
        lema_identificadores_antisimetrico(a[0], c[0]);
        let ab = orden_identificadores(a[0], b[0]);
        let bc = orden_identificadores(b[0], c[0]);
        if ab == Ordering::Less && bc == Ordering::Less {
            lema_identificadores_transitivo(a[0], b[0], c[0]);
        } else if ab == Ordering::Equal && bc == Ordering::Equal {
            lema_listas_transitivo(a.drop_first(), b.drop_first(), c.drop_first());
        }
    }
}

/// Ley: comparar dos versiones en un orden da el resultado inverso que en
/// el otro, y sólo dos versiones iguales se comparan como iguales.
pub proof fn ley_precedencia_antisimetrica(a: VistaVersion, b: VistaVersion)
    ensures
        orden_versiones(a, b) == invertir(orden_versiones(b, a)),
        orden_versiones(a, b) == Ordering::Equal <==> a == b,
{
    lema_listas_antisimetrico(a.3, b.3);
    if a.3.len() == 0 && b.3.len() == 0 {
        assert(a.3 =~= b.3);
    }
}

/// Ley: toda versión tiene la misma precedencia que sí misma.
pub proof fn ley_precedencia_reflexiva(a: VistaVersion)
    ensures
        orden_versiones(a, a) == Ordering::Equal,
{
    ley_precedencia_antisimetrica(a, a);
}

/// Ley: la precedencia entre versiones es transitiva.
pub proof fn ley_precedencia_transitiva(a: VistaVersion, b: VistaVersion, c: VistaVersion)
    requires
        orden_versiones(a, b) == Ordering::Less,
        orden_versiones(b, c) == Ordering::Less,
    ensures
        orden_versiones(a, c) == Ordering::Less,
{
    if a.0 == b.0 && b.0 == c.0 && a.1 == b.1 && b.1 == c.1 && a.2 == b.2 && b.2 == c.2
        && a.3.len() > 0 && b.3.len() > 0 && c.3.len() > 0 {
        lema_listas_transitivo(a.3, b.3, c.3);
    }
}

/// Ley: con los mismos major, minor y patch, una versión con prerelease
/// tiene menor precedencia que la versión sin prerelease.
pub proof fn ley_prerelease_precede(a: VistaVersion, b: VistaVersion)
    requires
        a.0 == b.0,
        a.1 == b.1,
        a.2 == b.2,
        a.3.len() > 0,
        b.3.len() == 0,
    ensures
        orden_versiones(a, b) == Ordering::Less,
{
}

/// Ley: la precedencia de dos versiones que difieren en major, minor o
/// patch es el orden numérico del primero de esos números en que difieren,
/// sean cuales sean sus prereleases (un patch 10 es posterior a un patch 9).
pub proof fn ley_precedencia_numerica(a: VistaVersion, b: VistaVersion)
    ensures
        a.0 < b.0 ==> orden_versiones(a, b) == Ordering::Less,
        a.0 > b.0 ==> orden_versiones(a, b) == Ordering::Greater,
        a.0 == b.0 && a.1 < b.1 ==> orden_versiones(a, b) == Ordering::Less,
        a.0 == b.0 && a.1 > b.1 ==> orden_versiones(a, b) == Ordering::Greater,
        a.0 == b.0 && a.1 == b.1 && a.2 < b.2 ==> orden_versiones(a, b) == Ordering::Less,
        a.0 == b.0 && a.1 == b.1 && a.2 > b.2 ==> orden_versiones(a, b) == Ordering::Greater,
{
}

/// Ley: el orden entre textos es el del diccionario: un texto va antes que
/// otro exactamente cuando en la primera posición en que difieren tiene un
/// carácter menor, o cuando es un prefijo propio del otro.
pub proof fn ley_orden_de_diccionario(a: Seq<char>, b: Seq<char>)
    ensures
        orden_textos(a, b) == Ordering::Less <==> antes_en_diccionario(a, b),
    decreases a.len(),
{
    if a.len() == 0 || b.len() == 0 {
        if antes_en_diccionario(a, b) {
            let i = choose|i: int|
                0 <= i <= a.len() && i <= b.len() && #[trigger] a.take(i) == b.take(i) && (
                (i == a.len() && i < b.len()) || (i < a.len() && i < b.len() && a[i] < b[i]));
            assert(i == 0);
        }
        if a.len() == 0 && b.len() > 0 {
            assert(a.take(0) =~= b.take(0));
        }
    } else if a[0] < b[0] {
        assert(a.take(0) =~= b.take(0));
    } else if a[0] > b[0] {
        if antes_en_diccionario(a, b) {
            let i = choose|i: int|
                0 <= i <= a.len() && i <= b.len() && #[trigger] a.take(i) == b.take(i) && (
                (i == a.len() && i < b.len()) || (i < a.len() && i < b.len() && a[i] < b[i]));
            if i > 0 {
                assert(a.take(i)[0] == b.take(i)[0]);
            }
        }
    } else {
        let a1 = a.drop_first();
        let b1 = b.drop_first();
        ley_orden_de_diccionario(a1, b1);
        if antes_en_diccionario(a, b) {
            let i = choose|i: int|
                0 <= i <= a.len() && i <= b.len() && #[trigger] a.take(i) == b.take(i) && (
                (i == a.len() && i < b.len()) || (i < a.len() && i < b.len() && a[i] < b[i]));
            assert(i > 0);
            assert(a1.take(i - 1) =~= a.take(i).drop_first());
            assert(b1.take(i - 1) =~= b.take(i).drop_first());
            assert(a1.take(i - 1) == b1.take(i - 1));
            if i < a.len() {
                assert(a1[i - 1] == a[i]);
            }
            if i < b.len() {
                assert(b1[i - 1] == b[i]);
            }
        }
        if antes_en_diccionario(a1, b1) {
            let j = choose|j: int|
                0 <= j <= a1.len() && j <= b1.len() && #[trigger] a1.take(j) == b1.take(j) && (
                (j == a1.len() && j < b1.len()) || (j < a1.len() && j < b1.len() && a1[j] < b1[j]));
            assert(a.take(j + 1) =~= seq![a[0]] + a1.take(j));
            assert(b.take(j + 1) =~= seq![b[0]] + b1.take(j));
            if j < a1.len() {
                assert(a1[j] == a[j + 1]);
            }
            if j < b1.len() {
                assert(b1[j] == b[j + 1]);
            }
            assert(a.take(j + 1) == b.take(j + 1));
        }
    }
}

/// Comparar dos listas de identificadores con un prefijo común es comparar
/// lo que sigue a ese prefijo.
proof fn lema_listas_prefijo(a: Seq<Identificador>, b: Seq<Identificador>, i: int)
    requires
        0 <= i <= a.len(),
        i <= b.len(),
        a.take(i) == b.take(i),
    ensures
        orden_listas(a, b) == orden_listas(a.skip(i), b.skip(i)),
    decreases i,
{
    if i == 0 {
        assert(a.skip(0) =~= a);
        assert(b.skip(0) =~= b);
    } else {
        assert(a[0] == a.take(i)[0] && b[0] == b.take(i)[0]);
        lema_identificadores_antisimetrico(a[0], b[0]);
        assert(a.drop_first().take(i - 1) =~= a.take(i).drop_first());
        assert(b.drop_first().take(i - 1) =~= b.take(i).drop_first());
        lema_listas_prefijo(a.drop_first(), b.drop_first(), i - 1);
        assert(a.drop_first().skip(i - 1) =~= a.skip(i));
        assert(b.drop_first().skip(i - 1) =~= b.skip(i));
    }
}

/// Ley: con los mismos major, minor y patch y prereleases que coinciden en
/// sus primeros `i` identificadores, la primera versión tiene menor
/// precedencia si su prerelease termina ahí y la otra sigue, o si en la
/// posición `i` tiene un identificador numérico menor, un numérico frente
/// a uno de texto, o un texto anterior en el orden del diccionario.
pub proof fn ley_precedencia_prerelease(a: VistaVersion, b: VistaVersion, i: int)
    requires
        a.0 == b.0,
        a.1 == b.1,
        a.2 == b.2,
        a.3.len() > 0,
        b.3.len() > 0,
        0 <= i <= a.3.len(),
        i <= b.3.len(),
        a.3.take(i) == b.3.take(i),
    ensures
        i == a.3.len() && i < b.3.len() ==> orden_versiones(a, b) == Ordering::Less,
        i < a.3.len() && i < b.3.len() ==> match (a.3[i], b.3[i]) {
            (Identificador::Numerico(x), Identificador::Numerico(y)) => x < y ==> orden_versiones(a, b)
                == Ordering::Less,
            (Identificador::Numerico(_), Identificador::Texto(_)) => orden_versiones(a, b) == Ordering::Less,
            (Identificador::Texto(x), Identificador::Texto(y)) => antes_en_diccionario(x, y) ==> orden_versiones(
                a,
                b,
            ) == Ordering::Less,
            (Identificador::Texto(_), Identificador::Numerico(_)) => orden_versiones(a, b) == Ordering::Greater,
        },
{
    lema_listas_prefijo(a.3, b.3, i);
    let sa = a.3.skip(i);
    let sb = b.3.skip(i);
    if i < a.3.len() && i < b.3.len() {
        assert(sa[0] == a.3[i] && sb[0] == b.3[i]);
        if let (Identificador::Texto(x), Identificador::Texto(y)) = (a.3[i], b.3[i]) {
            ley_orden_de_diccionario(x, y);
        }
    }
}

} // verus!
