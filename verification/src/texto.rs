//! Operaciones básicas sobre textos, expresadas sobre su secuencia de caracteres.

use vstd::prelude::*;
use vstd::string::*;

verus! {

/// Agrega un carácter al final de un texto.
///
/// Llama a `String::push`, que según su documentación agrega el carácter
/// al final; el contrato afirma exactamente eso sobre la vista del texto.
#[verifier::external_body]
pub(crate) fn empujar(s: &mut String, c: char)
    ensures
        final(s)@ == old(s)@.push(c),
{
    s.push(c);
}

/// Los caracteres de un texto, en orden.
pub fn caracteres(s: &str) -> (r: Vec<char>)
    ensures
        r@ == s@,
{
    let n = s.unicode_len();
    let mut r: Vec<char> = Vec::new();
    let mut i: usize = 0;
    while i < n
        invariant
            n == s@.len(),
            i <= n,
            r@ == s@.subrange(0, i as int),
        decreases n - i,
    {
        r.push(s.get_char(i));
        i = i + 1;
    }
    assert(s@.subrange(0, n as int) =~= s@);
    r
}

/// El texto formado por una secuencia de caracteres.
pub fn texto_de(v: &Vec<char>) -> (r: String)
    ensures
        r@ == v@,
{
    let mut r = String::new();
    let mut i: usize = 0;
    while i < v.len()
        invariant
            i <= v.len(),
            r@ == v@.subrange(0, i as int),
        decreases v.len() - i,
    {
        empujar(&mut r, v[i]);
        assert(v@.subrange(0, i + 1) =~= v@.subrange(0, i as int).push(v@[i as int]));
        i = i + 1;
    }
    assert(v@.subrange(0, v.len() as int) =~= v@);
    r
}

/// Indica si dos textos tienen los mismos caracteres.
pub fn textos_iguales(a: &str, b: &str) -> (r: bool)
    ensures
        r == (a@ == b@),
{
    let n = a.unicode_len();
    if n != b.unicode_len() {
        return false;
    }
    let mut i: usize = 0;
    while i < n
        invariant
            n == a@.len(),
            n == b@.len(),
            i <= n,
            forall|k: int| 0 <= k < i ==> a@[k] == b@[k],
        decreases n - i,
    {
        if a.get_char(i) != b.get_char(i) {
            return false;
        }
        i = i + 1;
    }
    assert(a@ =~= b@);
    true
}


/// Las vistas de una secuencia de vectores de caracteres.
pub open spec fn vistas(v: Seq<Vec<char>>) -> Seq<Seq<char>> {
    v.map_values(|x: Vec<char>| x@)
}

/// La posición de la primera aparición de `c` en `s`, o la longitud de
/// `s` si `c` no aparece.
pub open spec fn indice_de(s: Seq<char>, c: char) -> nat
    decreases s.len(),
{
    if s.len() == 0 {
        0
    } else if s[0] == c {
        0
    } else {
        1 + indice_de(s.drop_first(), c)
    }
}

/// Los trozos de `s` separados por cada aparición de `c`, como los da
/// `str::split`: siempre hay al menos un trozo, y dos separadores seguidos
/// dejan un trozo vacío entre ellos.
pub open spec fn dividir(s: Seq<char>, c: char) -> Seq<Seq<char>>
    decreases s.len(),
{
    let i = indice_de(s, c);
    if i >= s.len() {
        seq![s]
    } else {
        seq![s.take(i as int)] + dividir(s.skip(i + 1 as int), c)
    }
}

/// Los trozos unidos con `c` entre cada par de trozos consecutivos.
pub open spec fn unir(partes: Seq<Seq<char>>, c: char) -> Seq<char>
    decreases partes.len(),
{
    if partes.len() == 0 {
        seq![]
    } else if partes.len() == 1 {
        partes[0]
    } else {
        partes[0] + seq![c] + unir(partes.drop_first(), c)
    }
}

/// `indice_de` es la primera posición de `c`, o la longitud si no aparece.
pub proof fn lema_indice_de(s: Seq<char>, c: char)
    ensures
        indice_de(s, c) <= s.len(),
        indice_de(s, c) < s.len() ==> s[indice_de(s, c) as int] == c,
        forall|k: int| 0 <= k < indice_de(s, c) ==> s[k] != c,
    decreases s.len(),
{
    if s.len() > 0 && s[0] != c {
        lema_indice_de(s.drop_first(), c);
        assert forall|k: int| 0 <= k < indice_de(s, c) implies s[k] != c by {
            if k > 0 {
                assert(s[k] == s.drop_first()[k - 1]);
            }
        }
    }
}

/// Una posición antes de la cual no aparece `c`, y en la que aparece `c` o
/// termina el texto, es `indice_de`.
pub proof fn lema_indice_en(s: Seq<char>, c: char, i: int)
    requires
        0 <= i <= s.len(),
        forall|k: int| 0 <= k < i ==> s[k] != c,
        i == s.len() || s[i] == c,
    ensures
        indice_de(s, c) == i,
    decreases i,
{
    if i > 0 {
        let t = s.drop_first();
        assert forall|k: int| 0 <= k < i - 1 implies t[k] != c by {
            assert(t[k] == s[k + 1]);
        }
        if i - 1 < t.len() {
            assert(t[i - 1] == s[i]);
        }
        lema_indice_en(t, c, i - 1);
    }
}

/// Un texto sin `c` es un único trozo.
pub proof fn lema_dividir_sin_separador(s: Seq<char>, c: char)
    requires
        !s.contains(c),
    ensures
        dividir(s, c) == seq![s],
{
    assert forall|k: int| 0 <= k < s.len() implies s[k] != c by {
        if s[k] == c {
            assert(s.contains(c));
        }
    }
    lema_indice_en(s, c, s.len() as int);
}

/// Un trozo sin `c`, seguido de `c` y de un resto, se divide en ese trozo
/// seguido de los trozos del resto.
pub proof fn lema_dividir_anteponer(x: Seq<char>, c: char, y: Seq<char>)
    requires
        !x.contains(c),
    ensures
        dividir(x + seq![c] + y, c) == seq![x] + dividir(y, c),
{
    let s = x + seq![c] + y;
    assert forall|k: int| 0 <= k < x.len() implies s[k] != c by {
        assert(s[k] == x[k]);
        if x[k] == c {
            assert(x.contains(c));
        }
    }
    assert(s[x.len() as int] == c);
    lema_indice_en(s, c, x.len() as int);
    assert(s.take(x.len() as int) =~= x);
    assert(s.skip(x.len() + 1 as int) =~= y);
}

/// Unir trozos sin `c` y volver a dividirlos por `c` devuelve los trozos.
pub proof fn lema_dividir_unir(p: Seq<Seq<char>>, c: char)
    requires
        p.len() >= 1,
        forall|i: int| 0 <= i < p.len() ==> !(#[trigger] p[i]).contains(c),
    ensures
        dividir(unir(p, c), c) == p,
    decreases p.len(),
{
    if p.len() == 1 {
        assert(!p[0].contains(c));
        lema_dividir_sin_separador(p[0], c);
        assert(seq![p[0]] =~= p);
    } else {
        let resto = p.drop_first();
        assert forall|i: int| 0 <= i < resto.len() implies !(#[trigger] resto[i]).contains(c) by {
            assert(resto[i] == p[i + 1]);
        }
        lema_dividir_unir(resto, c);
        assert(!p[0].contains(c));
        lema_dividir_anteponer(p[0], c, unir(resto, c));
        assert(seq![p[0]] + resto =~= p);
    }
}

/// Dividir por `c` da al menos un trozo, y unir los trozos con `c`
/// devuelve el texto.
pub proof fn lema_unir_dividir(s: Seq<char>, c: char)
    ensures
        dividir(s, c).len() >= 1,
        unir(dividir(s, c), c) == s,
    decreases s.len(),
{
    lema_indice_de(s, c);
    let i = indice_de(s, c);
    if i < s.len() {
        let resto = s.skip(i + 1 as int);
        lema_unir_dividir(resto, c);
        let partes = dividir(s, c);
        assert(partes.drop_first() =~= dividir(resto, c));
        assert(s.take(i as int) + seq![c] + resto =~= s);
    }
}

/// Agregar un trozo al final de una unión no vacía agrega el separador y el trozo.
pub proof fn lema_unir_push(p: Seq<Seq<char>>, x: Seq<char>, c: char)
    requires
        p.len() >= 1,
    ensures
        unir(p.push(x), c) == unir(p, c) + seq![c] + x,
    decreases p.len(),
{
    if p.len() == 1 {
        assert(p.push(x).drop_first() =~= seq![x]);
        assert(unir(p.push(x).drop_first(), c) == x);
    } else {
        lema_unir_push(p.drop_first(), x, c);
        assert(p.push(x).drop_first() =~= p.drop_first().push(x));
        assert(unir(p.push(x), c) =~= unir(p, c) + seq![c] + x);
    }
}

/// La posición de la primera aparición de `c` en `v`, o su longitud.
pub fn posicion(v: &Vec<char>, c: char) -> (r: usize)
    ensures
        r == indice_de(v@, c),
{
    let mut i: usize = 0;
    while i < v.len()
        invariant
            i <= v.len(),
            forall|k: int| 0 <= k < i ==> v@[k] != c,
        decreases v.len() - i,
    {
        if v[i] == c {
            proof {
                lema_indice_en(v@, c, i as int);
            }
            return i;
        }
        i = i + 1;
    }
    proof {
        lema_indice_en(v@, c, i as int);
    }
    i
}

/// Los caracteres de `v` desde la posición `a` hasta antes de la `b`.
pub fn tramo(v: &Vec<char>, a: usize, b: usize) -> (r: Vec<char>)
    requires
        a <= b <= v.len(),
    ensures
        r@ == v@.subrange(a as int, b as int),
{
    let mut r: Vec<char> = Vec::new();
    let mut i: usize = a;
    while i < b
        invariant
            a <= i <= b,
            b <= v.len(),
            r@ == v@.subrange(a as int, i as int),
        decreases b - i,
    {
        r.push(v[i]);
        assert(v@.subrange(a as int, i + 1) =~= v@.subrange(a as int, i as int).push(v@[i as int]));
        i = i + 1;
    }
    r
}

/// Divide `v` en los trozos separados por `c`, como `str::split`.
pub fn dividir_en(v: &Vec<char>, c: char) -> (r: Vec<Vec<char>>)
    ensures
        vistas(r@) == dividir(v@, c),
        r.len() >= 1,
{
    let mut r: Vec<Vec<char>> = Vec::new();
    let mut actual: Vec<char> = Vec::new();
    let mut inicio: usize = 0;
    let mut i: usize = 0;
    assert(v@.skip(0) =~= v@);
    assert(vistas(r@) + dividir(v@, c) =~= dividir(v@, c));
    while i < v.len()
        invariant
            inicio <= i <= v.len(),
            actual@ == v@.subrange(inicio as int, i as int),
            forall|k: int| inicio <= k < i ==> v@[k] != c,
            vistas(r@) + dividir(v@.skip(inicio as int), c) == dividir(v@, c),
        decreases v.len() - i,
    {
        if v[i] == c {
            let ghost t = v@.skip(inicio as int);
            proof {
                assert forall|k: int| 0 <= k < i - inicio implies t[k] != c by {
                    assert(t[k] == v@[k + inicio]);
                }
                lema_indice_en(t, c, i - inicio);
                assert(t.take(i - inicio) =~= actual@);
                assert(t.skip(i - inicio + 1) =~= v@.skip(i + 1));
                assert(vistas(r@.push(actual)) =~= vistas(r@).push(actual@));
                assert(vistas(r@).push(actual@) + dividir(v@.skip(i + 1), c)
                    =~= vistas(r@) + (seq![actual@] + dividir(v@.skip(i + 1), c)));
            }
            r.push(actual);
            actual = Vec::new();
            inicio = i + 1;
            assert(actual@ =~= v@.subrange(inicio as int, inicio as int));
        } else {
            actual.push(v[i]);
            assert(v@.subrange(inicio as int, i + 1) =~= v@.subrange(inicio as int, i as int).push(v@[i as int]));
        }
        i = i + 1;
    }
    let ghost t = v@.skip(inicio as int);
    proof {
        assert forall|k: int| 0 <= k < t.len() implies t[k] != c by {
            assert(t[k] == v@[k + inicio]);
        }
        lema_indice_en(t, c, t.len() as int);
        assert(t =~= actual@);
        assert(vistas(r@.push(actual)) =~= vistas(r@).push(actual@));
        assert(vistas(r@) + seq![actual@] =~= vistas(r@).push(actual@));
    }
    r.push(actual);
    r
}

} // verus!
