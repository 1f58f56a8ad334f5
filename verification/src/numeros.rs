//! Escritura y lectura de números naturales en base decimal.

use vstd::prelude::*;
use crate::texto::{empujar, texto_de};

verus! {

/// Los dígitos decimales, en orden.
pub const DIGITOS: [char; 10] = ['0', '1', '2', '3', '4', '5', '6', '7', '8', '9'];

/// Indica si `c` es un dígito decimal ASCII.
pub open spec fn es_digito(c: char) -> bool {
    '0' <= c && c <= '9'
}

/// Indica si todos los caracteres de `s` son dígitos decimales ASCII.
pub open spec fn todos_digitos(s: Seq<char>) -> bool {
    forall|i: int| 0 <= i < s.len() ==> #[trigger] es_digito(s[i])
}

/// El valor del dígito `c`.
pub open spec fn valor_digito(c: char) -> int {
    c as int - '0' as int
}

/// El carácter del dígito `d` (entre 0 y 9).
pub open spec fn digito(d: int) -> char {
    if d == 0 {
        '0'
    } else if d == 1 {
        '1'
    } else if d == 2 {
        '2'
    } else if d == 3 {
        '3'
    } else if d == 4 {
        '4'
    } else if d == 5 {
        '5'
    } else if d == 6 {
        '6'
    } else if d == 7 {
        '7'
    } else if d == 8 {
        '8'
    } else {
        '9'
    }
}

/// El valor de una secuencia de dígitos leída en base decimal.
pub open spec fn valor_decimal(s: Seq<char>) -> int
    decreases s.len(),
{
    if s.len() == 0 {
        0
    } else {
        valor_decimal(s.drop_last()) * 10 + valor_digito(s.last())
    }
}

/// La escritura decimal de `n`, sin ceros a la izquierda.
pub open spec fn decimal(n: nat) -> Seq<char>
    decreases n,
{
    if n < 10 {
        seq![digito(n as int)]
    } else {
        decimal(n / 10).push(digito((n % 10) as int))
    }
}

/// Un dígito escrito y leído conserva su valor.
pub proof fn lema_digito(d: int)
    requires
        0 <= d < 10,
    ensures
        es_digito(digito(d)),
        valor_digito(digito(d)) == d,
        digito(d) != '.' && digito(d) != '-' && digito(d) != '+',
        digito(d) == '0' <==> d == 0,
{
}

/// La escritura decimal de `n` es no vacía, está hecha de dígitos, no
/// empieza con cero salvo que sea "0", y se lee de vuelta como `n`.
pub proof fn lema_decimal(n: nat)
    ensures
        decimal(n).len() >= 1,
        todos_digitos(decimal(n)),
        valor_decimal(decimal(n)) == n,
        decimal(n).len() > 1 ==> decimal(n)[0] != '0',
        n >= 1 ==> decimal(n)[0] != '0',
        n < 10 ==> decimal(n).len() == 1,
    decreases n,
{
    if n < 10 {
        lema_digito(n as int);
        assert(decimal(n).drop_last() =~= Seq::<char>::empty());
        assert(valor_decimal(Seq::<char>::empty()) == 0);
    } else {
        lema_decimal(n / 10);
        lema_digito((n % 10) as int);
        vstd::arithmetic::div_mod::lemma_fundamental_div_mod(n as int, 10);
        let d = decimal(n / 10);
        lema_valor_push(d, digito((n % 10) as int));
        assert(decimal(n).drop_last() =~= d);
        assert forall|i: int| 0 <= i < decimal(n).len() implies #[trigger] es_digito(decimal(n)[i]) by {
            if i < d.len() {
                assert(decimal(n)[i] == d[i]);
            }
        }
        assert(decimal(n)[0] == d[0]);
    }
}

/// Leer una secuencia de dígitos con un dígito más al final multiplica por
/// diez y suma ese dígito.
pub proof fn lema_valor_push(s: Seq<char>, c: char)
    ensures
        valor_decimal(s.push(c)) == valor_decimal(s) * 10 + valor_digito(c),
{
    assert(s.push(c).drop_last() =~= s);
}

/// El valor de una secuencia de dígitos no es negativo.
pub proof fn lema_valor_no_negativo(s: Seq<char>)
    requires
        todos_digitos(s),
    ensures
        valor_decimal(s) >= 0,
    decreases s.len(),
{
    if s.len() > 0 {
        assert(todos_digitos(s.drop_last())) by {
            assert forall|i: int| 0 <= i < s.drop_last().len() implies #[trigger] es_digito(s.drop_last()[i]) by {
                assert(s.drop_last()[i] == s[i]);
            }
        }
        lema_valor_no_negativo(s.drop_last());
        assert(es_digito(s[s.len() - 1]));
    }
}

/// El valor de una secuencia de dígitos no es menor que el de sus prefijos.
pub proof fn lema_valor_prefijo(s: Seq<char>, j: int)
    requires
        0 <= j <= s.len(),
        todos_digitos(s),
    ensures
        valor_decimal(s.take(j)) <= valor_decimal(s),
    decreases s.len() - j,
{
    if j < s.len() {
        lema_valor_prefijo(s, j + 1);
        assert(s.take(j + 1).drop_last() =~= s.take(j));
        assert(es_digito(s[j]));
        assert(todos_digitos(s.take(j))) by {
            assert forall|i: int| 0 <= i < s.take(j).len() implies #[trigger] es_digito(s.take(j)[i]) by {
                assert(s.take(j)[i] == s[i]);
            }
        }
        lema_valor_no_negativo(s.take(j));
    } else {
        assert(s.take(j) =~= s);
    }
}

/// El dígito de un carácter de dígito es ese mismo carácter.
pub proof fn lema_digito_de_caracter(c: char)
    requires
        es_digito(c),
    ensures
        digito(valor_digito(c)) == c,
        0 <= valor_digito(c) < 10,
{
}

/// Una secuencia no vacía de dígitos sin ceros iniciales es la escritura
/// decimal de su valor.
pub proof fn lema_decimal_de_valor(t: Seq<char>)
    requires
        t.len() >= 1,
        todos_digitos(t),
        t.len() > 1 ==> t[0] != '0',
    ensures
        valor_decimal(t) >= 0,
        decimal(valor_decimal(t) as nat) == t,
    decreases t.len(),
{
    lema_valor_no_negativo(t);
    let u = t.last();
    assert(es_digito(u));
    lema_digito_de_caracter(u);
    let p = t.drop_last();
    if t.len() == 1 {
        assert(p =~= Seq::<char>::empty());
        assert(valor_decimal(p) == 0);
        assert(valor_decimal(t) == valor_digito(u));
        assert(seq![u] =~= t);
    } else {
        assert(todos_digitos(p)) by {
            assert forall|i: int| 0 <= i < p.len() implies #[trigger] es_digito(p[i]) by {
                assert(p[i] == t[i]);
            }
        }
        assert(p[0] == t[0]);
        lema_decimal_de_valor(p);
        lema_valor_prefijo(p, 1);
        assert(p.take(1).drop_last() =~= Seq::<char>::empty());
        assert(valor_decimal(p.take(1).drop_last()) == 0);
        assert(p.take(1).last() == p[0]);
        assert(es_digito(p[0]));
        assert(valor_decimal(p.take(1)) == valor_digito(p[0]));
        assert(valor_decimal(p) >= 1);
        let v = valor_decimal(t);
        assert(v == valor_decimal(p) * 10 + valor_digito(u));
        assert(v / 10 == valor_decimal(p) && v % 10 == valor_digito(u)) by (nonlinear_arith)
            requires
                v == valor_decimal(p) * 10 + valor_digito(u),
                0 <= valor_digito(u) < 10,
                valor_decimal(p) >= 0,
        ;
        assert(decimal(v as nat) == decimal((v / 10) as nat).push(digito(v % 10)));
        assert(p.push(u) =~= t);
    }
}

/// El carácter del dígito `d`.
pub fn caracter_digito(d: u64) -> (c: char)
    requires
        d < 10,
    ensures
        c == digito(d as int),
{
    DIGITOS[d as usize]
}

/// Agrega la escritura decimal de `n` al final de `s`.
pub fn escribir_decimal(n: u64, s: &mut String)
    ensures
        final(s)@ == old(s)@ + decimal(n as nat),
    decreases n,
{
    if n >= 10 {
        escribir_decimal(n / 10, s);
    }
    empujar(s, caracter_digito(n % 10));
    assert(final(s)@ =~= old(s)@ + decimal(n as nat));
}

/// La escritura decimal de `n`.
pub fn decimal_de(n: u64) -> (r: String)
    ensures
        r@ == decimal(n as nat),
{
    let mut r = String::new();
    escribir_decimal(n, &mut r);
    assert(r@ =~= decimal(n as nat));
    r
}

} // verus!
