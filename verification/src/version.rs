//! Versiones con formato MAJOR.MINOR.PATCH, con identificadores de
//! prerelease opcionales y metadatos de compilación que se descartan.

use vstd::prelude::*;
use vstd::string::*;
use crate::numeros::{
    decimal, escribir_decimal, es_digito, lema_decimal, lema_decimal_de_valor, lema_valor_prefijo, lema_valor_push,
    todos_digitos, valor_decimal, valor_digito,
};
use crate::texto::{
    caracteres, dividir, dividir_en, empujar, indice_de, lema_indice_de, posicion, texto_de,
    tramo, unir, vistas,
};

verus! {

/// Un identificador de prerelease: numérico si está hecho sólo de dígitos,
/// o de texto en otro caso.
#[derive(Debug, PartialEq, Eq)]
pub enum IdentificadorPrerelease {
    Numerico(u64),
    Texto(String),
}

/// La vista de un identificador de prerelease.
pub enum Identificador {
    Numerico(u64),
    Texto(Seq<char>),
}

impl View for IdentificadorPrerelease {
    type V = Identificador;

    open spec fn view(&self) -> Identificador {
        match self {
            IdentificadorPrerelease::Numerico(n) => Identificador::Numerico(*n),
            IdentificadorPrerelease::Texto(t) => Identificador::Texto(t@),
        }
    }
}

/// Una versión: major, minor, patch e identificadores de prerelease.
pub type Version = (u64, u64, u64, Vec<IdentificadorPrerelease>);

/// La vista de una versión.
pub type VistaVersion = (u64, u64, u64, Seq<Identificador>);

/// Las vistas de una secuencia de identificadores.
pub open spec fn vista_identificadores(ids: Seq<IdentificadorPrerelease>) -> Seq<Identificador> {
    ids.map_values(|x: IdentificadorPrerelease| x@)
}

/// La vista de una versión.
pub open spec fn vista_version(v: Version) -> VistaVersion {
    (v.0, v.1, v.2, vista_identificadores(v.3@))
}

/// Mensaje para una versión sin tres números separados por puntos.
pub open spec fn error_formato() -> Seq<char> {
    "debe tener formato MAJOR.MINOR.PATCH"@
}

/// Mensaje para un número vacío o con ceros iniciales.
pub open spec fn error_ceros() -> Seq<char> {
    "los números no pueden tener ceros iniciales"@
}

/// Mensaje para un número que no se puede leer, seguido del número.
pub open spec fn error_numero(t: Seq<char>) -> Seq<char> {
    "número inválido: "@ + t
}

/// Mensaje para un identificador de prerelease vacío o con caracteres no permitidos.
pub open spec fn error_identificador() -> Seq<char> {
    "identificador prerelease inválido"@
}

/// Indica si `c` puede formar parte de un identificador de prerelease:
/// letra o dígito ASCII, o guion.
pub open spec fn caracter_de_identificador(c: char) -> bool {
    ('a' <= c && c <= 'z') || ('A' <= c && c <= 'Z') || ('0' <= c && c <= '9') || c == '-'
}

/// Indica si todos los caracteres de `t` pueden formar parte de un identificador.
pub open spec fn caracteres_de_identificador(t: Seq<char>) -> bool {
    forall|i: int| 0 <= i < t.len() ==> #[trigger] caracter_de_identificador(t[i])
}

/// El número escrito en `t`: no vacío, sin ceros iniciales, sólo dígitos y
/// representable en 64 bits.
pub open spec fn leer_numero(t: Seq<char>) -> Result<u64, Seq<char>> {
    if t.len() == 0 || (t.len() > 1 && t[0] == '0') {
        Err(error_ceros())
    } else if todos_digitos(t) && valor_decimal(t) <= u64::MAX {
        Ok(valor_decimal(t) as u64)
    } else {
        Err(error_numero(t))
    }
}

/// El identificador de prerelease escrito en `t`.
pub open spec fn leer_identificador(t: Seq<char>) -> Result<Identificador, Seq<char>> {
    if t.len() == 0 || !caracteres_de_identificador(t) {
        Err(error_identificador())
    } else if todos_digitos(t) {
        match leer_numero(t) {
            Ok(n) => Ok(Identificador::Numerico(n)),
            Err(e) => Err(e),
        }
    } else {
        Ok(Identificador::Texto(t))
    }
}

/// Los identificadores escritos en `ids`, o el error del primero que no se
/// puede leer.
pub open spec fn leer_identificadores(ids: Seq<Seq<char>>) -> Result<Seq<Identificador>, Seq<char>>
    decreases ids.len(),
{
    if ids.len() == 0 {
        Ok(seq![])
    } else {
        match leer_identificador(ids[0]) {
            Err(e) => Err(e),
            Ok(x) => match leer_identificadores(ids.drop_first()) {
                Ok(r) => Ok(seq![x] + r),
                Err(e) => Err(e),
            },
        }
    }
}

/// La parte de `s` anterior al primer `+` (sin metadatos de compilación).
pub open spec fn sin_metadatos(s: Seq<char>) -> Seq<char> {
    s.take(indice_de(s, '+') as int)
}

/// La parte base de una versión sin metadatos: lo anterior al primer `-`.
pub open spec fn parte_base(v: Seq<char>) -> Seq<char> {
    v.take(indice_de(v, '-') as int)
}

/// La parte de prerelease de una versión sin metadatos: lo posterior al
/// primer `-`, o vacía si no hay `-`.
pub open spec fn parte_prerelease(v: Seq<char>) -> Seq<char> {
    if indice_de(v, '-') < v.len() {
        v.skip(indice_de(v, '-') + 1 as int)
    } else {
        seq![]
    }
}

/// La versión escrita en `s`, o el mensaje del primer error encontrado.
pub open spec fn leer_version(s: Seq<char>) -> Result<VistaVersion, Seq<char>> {
    let v = sin_metadatos(s);
    let partes = dividir(parte_base(v), '.');
    let pre = parte_prerelease(v);
    if partes.len() != 3 {
        Err(error_formato())
    } else {
        match leer_numero(partes[0]) {
            Err(e) => Err(e),
            Ok(major) => match leer_numero(partes[1]) {
                Err(e) => Err(e),
                Ok(minor) => match leer_numero(partes[2]) {
                    Err(e) => Err(e),
                    Ok(patch) => if pre.len() == 0 {
                        Ok((major, minor, patch, seq![]))
                    } else {
                        match leer_identificadores(dividir(pre, '.')) {
                            Err(e) => Err(e),
                            Ok(ids) => Ok((major, minor, patch, ids)),
                        }
                    },
                },
            },
        }
    }
}

/// El texto de un identificador de prerelease.
pub open spec fn texto_identificador(x: Identificador) -> Seq<char> {
    match x {
        Identificador::Numerico(n) => decimal(n as nat),
        Identificador::Texto(t) => t,
    }
}

/// El texto de una versión: `MAJOR.MINOR.PATCH`, seguido de `-` y los
/// identificadores separados por puntos si los hay.
pub open spec fn texto_version(v: VistaVersion) -> Seq<char> {
    let base = decimal(v.0 as nat) + seq!['.'] + decimal(v.1 as nat) + seq!['.'] + decimal(v.2 as nat);
    if v.3.len() == 0 {
        base
    } else {
        base + seq!['-'] + unir(v.3.map_values(|x: Identificador| texto_identificador(x)), '.')
    }
}

/// Lee un número sin signo de 64 bits escrito en decimal, sin ceros iniciales.
pub fn parsear_numero(t: &Vec<char>) -> (r: Result<u64, String>)
    ensures
        match (r, leer_numero(t@)) {
            (Ok(a), Ok(b)) => a == b,
            (Err(e), Err(m)) => e@ == m,
            _ => false,
        },
{
    if t.len() == 0 || (t.len() > 1 && t[0] == '0') {
        return Err(String::from_str("los números no pueden tener ceros iniciales"));
    }
    let mut valor: u64 = 0;
    let mut i: usize = 0;
    while i < t.len()
        invariant
            i <= t.len(),
            !(t@.len() == 0 || (t@.len() > 1 && t@[0] == '0')),
            todos_digitos(t@.take(i as int)),
            valor == valor_decimal(t@.take(i as int)),
        decreases t.len() - i,
    {
        let c = t[i];
        let ghost previo = t@.take(i as int);
        proof {
            assert(t@.take(i + 1) =~= previo.push(c));
            lema_valor_push(previo, c);
        }
        if !('0' <= c && c <= '9') {
            proof {
                assert(!es_digito(t@[i as int]));
                assert(!todos_digitos(t@));
            }
            let mut e = String::from_str("número inválido: ");
            let texto = texto_de(t);
            e.append(texto.as_str());
            return Err(e);
        }
        let d = (c as u32 - '0' as u32) as u64;
        assert(d == valor_digito(c));
        if valor > (u64::MAX - d) / 10 {
            proof {
                assert(valor_decimal(t@.take(i + 1)) > u64::MAX) by (nonlinear_arith)
                    requires
                        valor > (u64::MAX - d) / 10,
                        valor_decimal(t@.take(i + 1)) == valor * 10 + d,
                        d <= 9,
                ;
                if todos_digitos(t@) {
                    lema_valor_prefijo(t@, i + 1);
                }
            }
            let mut e = String::from_str("número inválido: ");
            let texto = texto_de(t);
            e.append(texto.as_str());
            return Err(e);
        }
        assert(valor * 10 + d <= u64::MAX) by (nonlinear_arith)
            requires
                valor <= (u64::MAX - d) / 10,
                d <= 9,
        ;
        valor = valor * 10 + d;
        proof {
            assert forall|k: int| 0 <= k < i + 1 implies #[trigger] es_digito(t@.take(i + 1)[k]) by {
                if k < i {
                    assert(t@.take(i + 1)[k] == previo[k]);
                }
            }
        }
        i = i + 1;
    }
    proof {
        assert(t@.take(t.len() as int) =~= t@);
    }
    Ok(valor)
}


/// Antepone `p` a un resultado correcto; deja igual un error.
pub open spec fn anteponer(
    p: Seq<Identificador>,
    r: Result<Seq<Identificador>, Seq<char>>,
) -> Result<Seq<Identificador>, Seq<char>> {
    match r {
        Ok(x) => Ok(p + x),
        Err(e) => Err(e),
    }
}

/// Indica si todos los caracteres de `t` son dígitos.
pub fn son_digitos(t: &Vec<char>) -> (r: bool)
    ensures
        r == todos_digitos(t@),
{
    let mut i: usize = 0;
    while i < t.len()
        invariant
            i <= t.len(),
            forall|k: int| 0 <= k < i ==> #[trigger] es_digito(t@[k]),
        decreases t.len() - i,
    {
        if !('0' <= t[i] && t[i] <= '9') {
            assert(!es_digito(t@[i as int]));
            return false;
        }
        i = i + 1;
    }
    true
}

/// Indica si todos los caracteres de `t` pueden formar parte de un identificador.
pub fn son_de_identificador(t: &Vec<char>) -> (r: bool)
    ensures
        r == caracteres_de_identificador(t@),
{
    let mut i: usize = 0;
    while i < t.len()
        invariant
            i <= t.len(),
            forall|k: int| 0 <= k < i ==> #[trigger] caracter_de_identificador(t@[k]),
        decreases t.len() - i,
    {
        let c = t[i];
        if !(('a' <= c && c <= 'z') || ('A' <= c && c <= 'Z') || ('0' <= c && c <= '9') || c == '-') {
            assert(!caracter_de_identificador(t@[i as int]));
            return false;
        }
        i = i + 1;
    }
    true
}

/// Lee los identificadores de prerelease separados por puntos en `pre`.
fn parsear_identificadores(pre: &Vec<char>) -> (r: Result<Vec<IdentificadorPrerelease>, String>)
    ensures
        match (r, leer_identificadores(dividir(pre@, '.'))) {
            (Ok(ids), Ok(w)) => vista_identificadores(ids@) == w,
            (Err(e), Err(m)) => e@ == m,
            _ => false,
        },
{
    let trozos = dividir_en(pre, '.');
    let ghost todos = vistas(trozos@);
    let mut ids: Vec<IdentificadorPrerelease> = Vec::new();
    let mut k: usize = 0;
    assert(todos.skip(0) =~= todos);
    assert(vista_identificadores(ids@) =~= Seq::<Identificador>::empty());
    assert(anteponer(vista_identificadores(ids@), leer_identificadores(todos)) =~= leer_identificadores(todos)) by {
        match leer_identificadores(todos) {
            Ok(x) => {
                assert(Seq::<Identificador>::empty() + x =~= x);
            },
            Err(_) => {},
        }
    }
    while k < trozos.len()
        invariant
            k <= trozos.len(),
            todos == vistas(trozos@),
            todos == dividir(pre@, '.'),
            leer_identificadores(todos) == anteponer(
                vista_identificadores(ids@),
                leer_identificadores(todos.skip(k as int)),
            ),
        decreases trozos.len() - k,
    {
        let t = &trozos[k];
        let ghost resto = todos.skip(k as int);
        proof {
            assert(resto[0] == t@);
            assert(resto.drop_first() =~= todos.skip(k + 1));
        }
        if t.len() == 0 || !son_de_identificador(t) {
            return Err(String::from_str("identificador prerelease inválido"));
        }
        let ghost previos = vista_identificadores(ids@);
        if son_digitos(t) {
            match parsear_numero(t) {
                Ok(n) => {
                    ids.push(IdentificadorPrerelease::Numerico(n));
                },
                Err(e) => {
                    return Err(e);
                },
            }
        } else {
            ids.push(IdentificadorPrerelease::Texto(texto_de(t)));
        }
        proof {
            let x = ids@[ids@.len() - 1]@;
            assert(vista_identificadores(ids@) =~= previos.push(x));
            assert(leer_identificador(resto[0]) == Ok::<Identificador, Seq<char>>(x));
            match leer_identificadores(todos.skip(k + 1)) {
                Ok(w) => {
                    assert(previos + (seq![x] + w) =~= previos.push(x) + w);
                },
                Err(_) => {},
            }
        }
        k = k + 1;
    }
    proof {
        assert(todos.skip(k as int) =~= Seq::<Seq<char>>::empty());
        assert(vista_identificadores(ids@) + Seq::<Identificador>::empty() =~= vista_identificadores(ids@));
    }
    Ok(ids)
}

/// Lee una versión `MAJOR.MINOR.PATCH`, con identificadores de prerelease
/// opcionales tras un `-`; lo que sigue al primer `+` se descarta.
pub fn parsear_version(version: &str) -> (r: Result<Version, String>)
    ensures
        match (r, leer_version(version@)) {
            (Ok(v), Ok(w)) => vista_version(v) == w,
            (Err(e), Err(m)) => e@ == m,
            _ => false,
        },
{
    let s = caracteres(version);
    let fin = posicion(&s, '+');
    proof {
        lema_indice_de(s@, '+');
    }
    let v = tramo(&s, 0, fin);
    assert(v@ =~= sin_metadatos(version@));
    let guion = posicion(&v, '-');
    proof {
        lema_indice_de(v@, '-');
    }
    let base = tramo(&v, 0, guion);
    let pre = if guion < v.len() {
        tramo(&v, guion + 1, v.len())
    } else {
        Vec::new()
    };
    assert(base@ =~= parte_base(v@));
    assert(pre@ =~= parte_prerelease(v@));
    let partes = dividir_en(&base, '.');
    if partes.len() != 3 {
        return Err(String::from_str("debe tener formato MAJOR.MINOR.PATCH"));
    }
    assert(vistas(partes@)[0] == partes@[0]@);
    assert(vistas(partes@)[1] == partes@[1]@);
    assert(vistas(partes@)[2] == partes@[2]@);
    let major = match parsear_numero(&partes[0]) {
        Ok(n) => n,
        Err(e) => {
            return Err(e);
        },
    };
    let minor = match parsear_numero(&partes[1]) {
        Ok(n) => n,
        Err(e) => {
            return Err(e);
        },
    };
    let patch = match parsear_numero(&partes[2]) {
        Ok(n) => n,
        Err(e) => {
            return Err(e);
        },
    };
    if pre.len() == 0 {
        let ids: Vec<IdentificadorPrerelease> = Vec::new();
        assert(vista_identificadores(ids@) =~= Seq::<Identificador>::empty());
        return Ok((major, minor, patch, ids));
    }
    match parsear_identificadores(&pre) {
        Ok(ids) => Ok((major, minor, patch, ids)),
        Err(e) => Err(e),
    }
}

/// Los textos de una secuencia de identificadores.
pub open spec fn textos_identificadores(ids: Seq<Identificador>) -> Seq<Seq<char>> {
    ids.map_values(|x: Identificador| texto_identificador(x))
}

/// Escribe una versión como `MAJOR.MINOR.PATCH`, seguida de `-` y los
/// identificadores de prerelease separados por puntos si los hay.
pub fn formatear_version(version: &Version) -> (r: String)
    ensures
        r@ == texto_version(vista_version(*version)),
{
    let mut r = String::new();
    escribir_decimal(version.0, &mut r);
    empujar(&mut r, '.');
    escribir_decimal(version.1, &mut r);
    empujar(&mut r, '.');
    escribir_decimal(version.2, &mut r);
    let ghost base = r@;
    assert(base =~= decimal(version.0 as nat) + seq!['.'] + decimal(version.1 as nat) + seq!['.']
        + decimal(version.2 as nat));
    let ids = &version.3;
    if ids.len() == 0 {
        return r;
    }
    empujar(&mut r, '-');
    let ghost textos = textos_identificadores(vista_identificadores(ids@));
    let mut i: usize = 0;
    while i < ids.len()
        invariant
            0 <= i <= ids.len(),
            ids.len() > 0,
            textos == textos_identificadores(vista_identificadores(ids@)),
            r@ == base + seq!['-'] + (if i == 0 { Seq::<char>::empty() } else { unir(textos.take(i as int), '.') }),
        decreases ids.len() - i,
    {
        let ghost antes = r@;
        if i > 0 {
            empujar(&mut r, '.');
        }
        match &ids[i] {
            IdentificadorPrerelease::Numerico(n) => {
                escribir_decimal(*n, &mut r);
            },
            IdentificadorPrerelease::Texto(t) => {
                r.append(t.as_str());
            },
        }
        proof {
            assert(textos[i as int] == texto_identificador(ids@[i as int]@));
            if i == 0 {
                assert(textos.take(1) =~= seq![textos[0]]);
                assert(r@ =~= base + seq!['-'] + unir(textos.take(1), '.'));
            } else {
                assert(textos.take(i + 1) =~= textos.take(i as int).push(textos[i as int]));
                crate::texto::lema_unir_push(textos.take(i as int), textos[i as int], '.');
                assert(r@ =~= base + seq!['-'] + unir(textos.take(i + 1), '.'));
            }
        }
        i = i + 1;
    }
    assert(textos.take(ids.len() as int) =~= textos);
    r
}

/// Una versión bien formada: sus identificadores de texto son no vacíos,
/// están hechos de caracteres permitidos y no son sólo dígitos (esos se
/// leen como numéricos).
pub open spec fn bien_formada(v: VistaVersion) -> bool {
    forall|i: int|
        0 <= i < v.3.len() ==> match #[trigger] v.3[i] {
            Identificador::Texto(t) => t.len() > 0 && caracteres_de_identificador(t) && !todos_digitos(t),
            Identificador::Numerico(_) => true,
        }
}

/// Una concatenación contiene un carácter sólo si alguna de sus partes lo contiene.
proof fn lema_concat_sin(a: Seq<char>, b: Seq<char>, c: char)
    requires
        !a.contains(c),
        !b.contains(c),
    ensures
        !(a + b).contains(c),
{
    if (a + b).contains(c) {
        let k = choose|k: int| 0 <= k < (a + b).len() && (a + b)[k] == c;
        if k < a.len() {
            assert(a[k] == c);
        } else {
            assert(b[k - a.len()] == c);
        }
    }
}

/// Una escritura decimal no contiene `+`, `-` ni `.`.
proof fn lema_decimal_sin(n: nat, c: char)
    requires
        c == '+' || c == '-' || c == '.',
    ensures
        !decimal(n).contains(c),
{
    lema_decimal(n);
    if decimal(n).contains(c) {
        let k = choose|k: int| 0 <= k < decimal(n).len() && decimal(n)[k] == c;
        assert(es_digito(decimal(n)[k]));
    }
}

/// El texto de un identificador de una versión bien formada no contiene
/// `+` ni `.`, no es vacío, y se lee de vuelta como el mismo identificador.
proof fn lema_texto_identificador(x: Identificador, c: char)
    requires
        c == '+' || c == '.',
        match x {
            Identificador::Texto(t) => t.len() > 0 && caracteres_de_identificador(t) && !todos_digitos(t),
            Identificador::Numerico(_) => true,
        },
    ensures
        !texto_identificador(x).contains(c),
        texto_identificador(x).len() > 0,
        leer_identificador(texto_identificador(x)) == Ok::<Identificador, Seq<char>>(x),
{
    match x {
        Identificador::Numerico(n) => {
            lema_decimal_sin(n as nat, c);
            lema_decimal(n as nat);
            let d = decimal(n as nat);
            assert forall|i: int| 0 <= i < d.len() implies #[trigger] caracter_de_identificador(d[i]) by {
                assert(es_digito(d[i]));
            }
        },
        Identificador::Texto(t) => {
            if t.contains(c) {
                let k = choose|k: int| 0 <= k < t.len() && t[k] == c;
                assert(caracter_de_identificador(t[k]));
            }
        },
    }
}

/// La unión con `.` de textos sin `+` no contiene `+`, y es al menos tan
/// larga como su primer trozo.
proof fn lema_unir_sin(p: Seq<Seq<char>>)
    requires
        p.len() >= 1,
        forall|i: int| 0 <= i < p.len() ==> !(#[trigger] p[i]).contains('+'),
    ensures
        !unir(p, '.').contains('+'),
        unir(p, '.').len() >= p[0].len(),
    decreases p.len(),
{
    if p.len() > 1 {
        let resto = p.drop_first();
        assert forall|i: int| 0 <= i < resto.len() implies !(#[trigger] resto[i]).contains('+') by {
            assert(resto[i] == p[i + 1]);
        }
        lema_unir_sin(resto);
        assert(!p[0].contains('+'));
        assert(!seq!['.'].contains('+')) by {
            if seq!['.'].contains('+') {
                assert(seq!['.'][0] == '.');
            }
        }
        lema_concat_sin(p[0], seq!['.'], '+');
        lema_concat_sin(p[0] + seq!['.'], unir(resto, '.'), '+');
    }
}

/// Leer los textos de los identificadores de una versión bien formada da
/// esos identificadores.
proof fn lema_leer_textos(ids: Seq<Identificador>)
    requires
        bien_formada((0, 0, 0, ids)),
    ensures
        leer_identificadores(textos_identificadores(ids)) == Ok::<Seq<Identificador>, Seq<char>>(ids),
    decreases ids.len(),
{
    let textos = textos_identificadores(ids);
    if ids.len() == 0 {
        assert(textos =~= Seq::<Seq<char>>::empty());
        assert(ids =~= Seq::<Identificador>::empty());
    } else {
        let resto = ids.drop_first();
        assert forall|i: int| 0 <= i < resto.len() implies match #[trigger] resto[i] {
            Identificador::Texto(t) => t.len() > 0 && caracteres_de_identificador(t) && !todos_digitos(t),
            Identificador::Numerico(_) => true,
        } by {
            assert(resto[i] == ids[i + 1]);
        }
        assert(bien_formada((0, 0, 0, resto)));
        lema_leer_textos(resto);
        assert(ids[0] == ids[0]);
        lema_texto_identificador(ids[0], '.');
        assert(textos[0] == texto_identificador(ids[0]));
        assert(textos.drop_first() =~= textos_identificadores(resto));
        assert(seq![ids[0]] + resto =~= ids);
    }
}

/// Leer una escritura decimal devuelve el número.
proof fn lema_leer_decimal(n: u64)
    ensures
        leer_numero(decimal(n as nat)) == Ok::<u64, Seq<char>>(n),
{
    lema_decimal(n as nat);
}

/// Ley: escribir una versión bien formada y volver a leerla devuelve la
/// misma versión.
pub proof fn ley_leer_escribir(w: VistaVersion)
    requires
        bien_formada(w),
    ensures
        leer_version(texto_version(w)) == Ok::<VistaVersion, Seq<char>>(w),
{
    let d0 = decimal(w.0 as nat);
    let d1 = decimal(w.1 as nat);
    let d2 = decimal(w.2 as nat);
    let base = d0 + seq!['.'] + d1 + seq!['.'] + d2;
    let s = texto_version(w);
    lema_leer_decimal(w.0);
    lema_leer_decimal(w.1);
    lema_leer_decimal(w.2);
    lema_decimal_sin(w.0 as nat, '+');
    lema_decimal_sin(w.1 as nat, '+');
    lema_decimal_sin(w.2 as nat, '+');
    lema_decimal_sin(w.0 as nat, '-');
    lema_decimal_sin(w.1 as nat, '-');
    lema_decimal_sin(w.2 as nat, '-');
    lema_decimal_sin(w.0 as nat, '.');
    lema_decimal_sin(w.1 as nat, '.');
    lema_decimal_sin(w.2 as nat, '.');
    assert(!seq!['.'].contains('+')) by {
        if seq!['.'].contains('+') {
            assert(seq!['.'][0] == '.');
        }
    }
    assert(!seq!['.'].contains('-')) by {
        if seq!['.'].contains('-') {
            assert(seq!['.'][0] == '.');
        }
    }
    lema_concat_sin(d0, seq!['.'], '+');
    lema_concat_sin(d0 + seq!['.'], d1, '+');
    lema_concat_sin(d0 + seq!['.'] + d1, seq!['.'], '+');
    lema_concat_sin(d0 + seq!['.'] + d1 + seq!['.'], d2, '+');
    lema_concat_sin(d0, seq!['.'], '-');
    lema_concat_sin(d0 + seq!['.'], d1, '-');
    lema_concat_sin(d0 + seq!['.'] + d1, seq!['.'], '-');
    lema_concat_sin(d0 + seq!['.'] + d1 + seq!['.'], d2, '-');
    // La base se divide en los tres números.
    crate::texto::lema_dividir_sin_separador(d2, '.');
    assert(d1 + seq!['.'] + d2 == d1 + seq!['.'] + d2);
    crate::texto::lema_dividir_anteponer(d1, '.', d2);
    crate::texto::lema_dividir_anteponer(d0, '.', d1 + seq!['.'] + d2);
    assert(d0 + seq!['.'] + (d1 + seq!['.'] + d2) =~= base);
    assert(dividir(base, '.') =~= seq![d0, d1, d2]);
    if w.3.len() == 0 {
        assert(s == base);
        crate::texto::lema_indice_en(s, '+', s.len() as int);
        assert(sin_metadatos(s) =~= s);
        crate::texto::lema_indice_en(s, '-', s.len() as int);
        assert(parte_base(s) =~= base);
        assert(parte_prerelease(s) =~= Seq::<char>::empty());
        assert(w.3 =~= Seq::<Identificador>::empty());
        assert(dividir(parte_base(sin_metadatos(s)), '.') == seq![d0, d1, d2]);
        assert(leer_version(s) == Ok::<VistaVersion, Seq<char>>((w.0, w.1, w.2, w.3)));
    } else {
        let textos = textos_identificadores(w.3);
        let resto = unir(textos, '.');
        assert forall|i: int| 0 <= i < textos.len() implies !(#[trigger] textos[i]).contains('+') && !textos[i].contains('.') by {
            assert(textos[i] == texto_identificador(w.3[i]));
            lema_texto_identificador(w.3[i], '+');
            lema_texto_identificador(w.3[i], '.');
        }
        lema_unir_sin(textos);
        lema_texto_identificador(w.3[0], '+');
        assert(s == base + seq!['-'] + resto);
        assert(!seq!['-'].contains('+')) by {
            if seq!['-'].contains('+') {
                assert(seq!['-'][0] == '-');
            }
        }
        lema_concat_sin(base, seq!['-'], '+');
        lema_concat_sin(base + seq!['-'], resto, '+');
        assert forall|k: int| 0 <= k < s.len() implies s[k] != '+' by {
            if s[k] == '+' {
                assert(s.contains('+'));
            }
        }
        crate::texto::lema_indice_en(s, '+', s.len() as int);
        assert(sin_metadatos(s) =~= s);
        assert forall|k: int| 0 <= k < base.len() implies s[k] != '-' by {
            assert(s[k] == base[k]);
            if base[k] == '-' {
                assert(base.contains('-'));
            }
        }
        assert(s[base.len() as int] == '-');
        crate::texto::lema_indice_en(s, '-', base.len() as int);
        assert(parte_base(s) =~= base);
        assert(parte_prerelease(s) =~= resto);
        crate::texto::lema_dividir_unir(textos, '.');
        lema_leer_textos(w.3);
        assert(dividir(parte_base(sin_metadatos(s)), '.') == seq![d0, d1, d2]);
        assert(parte_prerelease(sin_metadatos(s)) == resto);
        assert(resto.len() > 0);
        assert(leer_identificadores(dividir(resto, '.')) == Ok::<Seq<Identificador>, Seq<char>>(w.3));
        assert(leer_version(s) == Ok::<VistaVersion, Seq<char>>((w.0, w.1, w.2, w.3)));
    }
}

/// Lo que se lee de un identificador correcto es un identificador bien formado.
proof fn lema_leidos_bien_formados(ids: Seq<Seq<char>>)
    ensures
        leer_identificadores(ids) matches Ok(w) ==> bien_formada((0, 0, 0, w)),
    decreases ids.len(),
{
    if ids.len() > 0 {
        lema_leidos_bien_formados(ids.drop_first());
        if let Ok(w) = leer_identificadores(ids) {
            if let Ok(r) = leer_identificadores(ids.drop_first()) {
                assert(w == seq![w[0]] + r);
                assert forall|i: int| 0 <= i < w.len() implies match #[trigger] w[i] {
                    Identificador::Texto(t) => t.len() > 0 && caracteres_de_identificador(t) && !todos_digitos(t),
                    Identificador::Numerico(_) => true,
                } by {
                    if i > 0 {
                        assert(w[i] == r[i - 1]);
                    }
                }
            }
        }
    }
}

/// Ley: toda versión leída está bien formada, y por lo tanto escribirla y
/// volver a leerla devuelve la misma versión.
pub proof fn ley_leida_se_reescribe(s: Seq<char>)
    ensures
        leer_version(s) matches Ok(w) ==> bien_formada(w)
            && leer_version(texto_version(w)) == Ok::<VistaVersion, Seq<char>>(w),
{
    if let Ok(w) = leer_version(s) {
        let pre = parte_prerelease(sin_metadatos(s));
        if pre.len() > 0 {
            lema_leidos_bien_formados(dividir(pre, '.'));
        }
        assert(bien_formada(w));
        ley_leer_escribir(w);
    }
}

/// Un número leído se escribe como el texto de donde se leyó.
proof fn lema_numero_leido(t: Seq<char>)
    ensures
        leer_numero(t) matches Ok(n) ==> decimal(n as nat) == t,
{
    if leer_numero(t) is Ok {
        lema_decimal_de_valor(t);
    }
}

/// Un identificador leído se escribe como el texto de donde se leyó.
proof fn lema_identificador_leido(t: Seq<char>)
    ensures
        leer_identificador(t) matches Ok(x) ==> texto_identificador(x) == t,
{
    if leer_identificador(t) is Ok && todos_digitos(t) {
        lema_numero_leido(t);
    }
}

/// Los identificadores leídos se escriben como los textos de donde se leyeron.
proof fn lema_identificadores_leidos(ids: Seq<Seq<char>>)
    ensures
        leer_identificadores(ids) matches Ok(w) ==> textos_identificadores(w) == ids,
    decreases ids.len(),
{
    if let Ok(w) = leer_identificadores(ids) {
        if ids.len() == 0 {
            assert(textos_identificadores(w) =~= ids);
        } else {
            lema_identificadores_leidos(ids.drop_first());
            lema_identificador_leido(ids[0]);
            let r = leer_identificadores(ids.drop_first())->Ok_0;
            assert(w == seq![w[0]] + r);
            assert(textos_identificadores(w) =~= seq![texto_identificador(w[0])] + textos_identificadores(r));
            assert(seq![ids[0]] + ids.drop_first() =~= ids);
        }
    }
}

/// Ley: escribir una versión leída devuelve el texto leído, siempre que el
/// texto no tenga metadatos de compilación (`+`) y que, si tiene un `-`,
/// haya identificadores de prerelease después del primero.
pub proof fn ley_escribir_leida(s: Seq<char>)
    requires
        !s.contains('+'),
        parte_prerelease(s).len() == 0 ==> !s.contains('-'),
    ensures
        leer_version(s) matches Ok(w) ==> texto_version(w) == s,
{
    if let Ok(w) = leer_version(s) {
        crate::texto::lema_indice_de(s, '+');
        if indice_de(s, '+') < s.len() {
            assert(s.contains('+'));
        }
        assert(sin_metadatos(s) =~= s);
        crate::texto::lema_indice_de(s, '-');
        let i = indice_de(s, '-') as int;
        let base = s.take(i);
        assert(parte_base(s) == base);
        let p = dividir(base, '.');
        crate::texto::lema_unir_dividir(base, '.');
        assert(p.len() == 3);
        lema_numero_leido(p[0]);
        lema_numero_leido(p[1]);
        lema_numero_leido(p[2]);
        assert(decimal(w.0 as nat) == p[0]);
        assert(decimal(w.1 as nat) == p[1]);
        assert(decimal(w.2 as nat) == p[2]);
        let p1 = p.drop_first();
        assert(p1.drop_first() =~= seq![p[2]]);
        assert(unir(p1.drop_first(), '.') == p[2]);
        assert(p1[0] == p[1]);
        assert(unir(p1, '.') == p[1] + seq!['.'] + p[2]);
        assert(base == p[0] + seq!['.'] + (p[1] + seq!['.'] + p[2]));
        let escrita = decimal(w.0 as nat) + seq!['.'] + decimal(w.1 as nat) + seq!['.'] + decimal(w.2 as nat);
        assert(escrita =~= base);
        let pre = parte_prerelease(s);
        if pre.len() == 0 {
            if i < s.len() {
                assert(s.contains('-'));
            }
            assert(base =~= s);
            assert(w.3 =~= Seq::<Identificador>::empty());
        } else {
            let q = dividir(pre, '.');
            crate::texto::lema_unir_dividir(pre, '.');
            lema_identificadores_leidos(q);
            assert(textos_identificadores(w.3) == q);
            assert(w.3.len() > 0);
            assert(w.3.map_values(|x: Identificador| texto_identificador(x)) =~= q);
            assert(base + seq!['-'] + pre =~= s);
        }
    }
}

} // verus!
