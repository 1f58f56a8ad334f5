//! Lógica del formulario y de la tabla de gastos: orden por columnas,
//! títulos, validación de los campos y lectura local de montos.

use vstd::prelude::*;
use vstd::string::*;
use crate::fecha::{analizar_fecha, fecha_en_texto};
use crate::texto::{caracteres, empujar, texto_de};

verus! {

/// Los días que se pueden elegir en el formulario.
pub const DIAS: [u32; 31] = [
    1, 2, 3, 4, 5, 6, 7, 8, 9, 10,
    11, 12, 13, 14, 15, 16, 17, 18, 19, 20,
    21, 22, 23, 24, 25, 26, 27, 28, 29, 30,
    31,
];

/// Qué muestra la pantalla de gastos: la tabla, el formulario de alta, el
/// de edición de un gasto, o la confirmación de una eliminación.
#[derive(Debug, Clone, Copy, Default)]
pub enum ModoFormulario {
    #[default]
    Cerrado,
    Nuevo,
    Editar(i32),
    ConfirmarEliminacion,
}

/// La columna por la que se ordena la tabla.
#[derive(Debug, Clone, Copy, PartialEq, Eq, Structural)]
pub enum ColumnaOrden {
    Descripcion,
    Monto,
    Persona,
    Categoria,
    Fecha,
}

/// El sentido del orden de la tabla.
#[derive(Debug, Clone, Copy, PartialEq, Eq, Structural)]
pub enum DireccionOrden {
    Ascendente,
    Descendente,
}

/// La columna y el sentido del orden tras pulsar el encabezado de
/// `columna`: si ya es la columna del orden se invierte el sentido; si no,
/// se pasa a ordenar por ella en sentido ascendente.
pub open spec fn orden_tras_pulsar(
    columna_actual: ColumnaOrden,
    direccion_actual: DireccionOrden,
    columna: ColumnaOrden,
) -> (ColumnaOrden, DireccionOrden) {
    if columna_actual == columna {
        (columna, match direccion_actual {
            DireccionOrden::Ascendente => DireccionOrden::Descendente,
            DireccionOrden::Descendente => DireccionOrden::Ascendente,
        })
    } else {
        (columna, DireccionOrden::Ascendente)
    }
}

/// Pulsar el encabezado de `columna`.
pub fn ordenar_por(
    columna_actual: ColumnaOrden,
    direccion_actual: DireccionOrden,
    columna: ColumnaOrden,
) -> (r: (ColumnaOrden, DireccionOrden))
    ensures
        r == orden_tras_pulsar(columna_actual, direccion_actual, columna),
{
    if columna_actual == columna {
        let direccion = match direccion_actual {
            DireccionOrden::Ascendente => DireccionOrden::Descendente,
            DireccionOrden::Descendente => DireccionOrden::Ascendente,
        };
        (columna, direccion)
    } else {
        (columna, DireccionOrden::Ascendente)
    }
}

/// Ley: pulsar dos veces el encabezado de la columna por la que ya se
/// ordena deja el orden como estaba; pulsar dos veces el de otra columna
/// deja esa columna en sentido descendente.
pub proof fn ley_pulsar_dos_veces(columna_actual: ColumnaOrden, direccion_actual: DireccionOrden, columna: ColumnaOrden)
    ensures
        ({
            let primero = orden_tras_pulsar(columna_actual, direccion_actual, columna);
            let segundo = orden_tras_pulsar(primero.0, primero.1, columna);
            if columna_actual == columna {
                segundo == (columna_actual, direccion_actual)
            } else {
                segundo == (columna, DireccionOrden::Descendente)
            }
        }),
{
}

/// El título del encabezado de una columna: su nombre, seguido de una
/// flecha hacia arriba o hacia abajo si la tabla se ordena por ella.
pub fn titulo_columna(
    nombre: &str,
    columna: ColumnaOrden,
    columna_orden: ColumnaOrden,
    direccion_orden: DireccionOrden,
) -> (r: String)
    ensures
        r@ == if columna_orden != columna {
            nombre@
        } else {
            match direccion_orden {
                DireccionOrden::Ascendente => nombre@ + " ↑"@,
                DireccionOrden::Descendente => nombre@ + " ↓"@,
            }
        },
{
    let mut r = String::from_str(nombre);
    if columna_orden == columna {
        match direccion_orden {
            DireccionOrden::Ascendente => r.append(" ↑"),
            DireccionOrden::Descendente => r.append(" ↓"),
        }
    }
    r
}

/// Indica si `c` es un espacio en blanco según la propiedad Unicode
/// `White_Space`, la que usa `char::is_whitespace`.
pub open spec fn es_espacio(c: char) -> bool {
    ('\u{9}' <= c && c <= '\u{d}') || c == ' ' || c == '\u{85}' || c == '\u{a0}' || c == '\u{1680}'
        || ('\u{2000}' <= c && c <= '\u{200a}') || c == '\u{2028}' || c == '\u{2029}'
        || c == '\u{202f}' || c == '\u{205f}' || c == '\u{3000}'
}

/// Indica si un carácter es un espacio en blanco.
pub fn espacio(c: char) -> (r: bool)
    ensures
        r == es_espacio(c),
{
    ('\u{9}' <= c && c <= '\u{d}') || c == ' ' || c == '\u{85}' || c == '\u{a0}' || c == '\u{1680}'
        || ('\u{2000}' <= c && c <= '\u{200a}') || c == '\u{2028}' || c == '\u{2029}'
        || c == '\u{202f}' || c == '\u{205f}' || c == '\u{3000}'
}

/// Indica si un texto está vacío o sólo tiene espacios en blanco.
pub open spec fn en_blanco(s: Seq<char>) -> bool {
    forall|i: int| 0 <= i < s.len() ==> #[trigger] es_espacio(s[i])
}

/// Indica si un texto está vacío o sólo tiene espacios en blanco.
pub fn esta_en_blanco(s: &str) -> (r: bool)
    ensures
        r == en_blanco(s@),
{
    let n = s.unicode_len();
    let mut i: usize = 0;
    while i < n
        invariant
            n == s@.len(),
            i <= n,
            forall|k: int| 0 <= k < i ==> #[trigger] es_espacio(s@[k]),
        decreases n - i,
    {
        if !espacio(s.get_char(i)) {
            return false;
        }
        i = i + 1;
    }
    true
}

/// El texto sin los espacios en blanco iniciales.
pub open spec fn sin_espacios_iniciales(s: Seq<char>) -> Seq<char>
    decreases s.len(),
{
    if s.len() > 0 && es_espacio(s[0]) {
        sin_espacios_iniciales(s.drop_first())
    } else {
        s
    }
}

/// El texto sin los espacios en blanco finales.
pub open spec fn sin_espacios_finales(s: Seq<char>) -> Seq<char>
    decreases s.len(),
{
    if s.len() > 0 && es_espacio(s.last()) {
        sin_espacios_finales(s.drop_last())
    } else {
        s
    }
}

/// El texto sin espacios en blanco al principio ni al final, como `str::trim`.
pub open spec fn recortar(s: Seq<char>) -> Seq<char> {
    sin_espacios_finales(sin_espacios_iniciales(s))
}

/// Cambia un carácter de un monto escrito con coma decimal: el punto de
/// miles desaparece y la coma pasa a ser punto.
pub open spec fn cambio_local(c: char) -> Seq<char> {
    if c == '.' {
        seq![]
    } else if c == ',' {
        seq!['.']
    } else {
        seq![c]
    }
}

/// Un monto escrito con coma decimal pasado a punto decimal.
pub open spec fn a_punto_decimal(s: Seq<char>) -> Seq<char>
    decreases s.len(),
{
    if s.len() == 0 {
        seq![]
    } else {
        a_punto_decimal(s.drop_last()) + cambio_local(s.last())
    }
}

/// El texto de un monto listo para leerse como número: sin espacios en los
/// extremos y, si tiene coma, sin puntos de miles y con punto decimal.
pub open spec fn monto_normalizado(entrada: Seq<char>) -> Seq<char> {
    let t = recortar(entrada);
    if t.contains(',') {
        a_punto_decimal(t)
    } else {
        t
    }
}

/// Quita los espacios en blanco de los extremos de un texto.
pub fn recortar_texto(s: &Vec<char>) -> (r: Vec<char>)
    ensures
        r@ == recortar(s@),
{
    let mut a: usize = 0;
    let ghost mut ja: int = 0;
    assert(s@.skip(0) =~= s@);
    while a < s.len() && espacio(s[a])
        invariant
            a <= s.len(),
            ja == a,
            sin_espacios_iniciales(s@) == sin_espacios_iniciales(s@.skip(ja)),
        decreases s.len() - a,
    {
        assert(s@.skip(ja)[0] == s@[ja]);
        assert(s@.skip(ja).drop_first() =~= s@.skip(ja + 1));
        a = a + 1;
        proof {
            ja = ja + 1;
        }
    }
    let ghost t = s@.skip(ja);
    assert(sin_espacios_iniciales(t) == t) by {
        if t.len() > 0 {
            assert(t[0] == s@[ja]);
        }
    }
    let mut b: usize = s.len();
    while b > a && espacio(s[b - 1])
        invariant
            a <= b <= s.len(),
            ja == a,
            t == s@.skip(ja),
            sin_espacios_finales(t) == sin_espacios_finales(s@.subrange(ja, b as int)),
        decreases b,
    {
        let ghost u = s@.subrange(ja, b as int);
        assert(u.last() == s@[b - 1]);
        assert(u.drop_last() =~= s@.subrange(ja, b - 1));
        b = b - 1;
    }
    proof {
        let u = s@.subrange(ja, b as int);
        if u.len() > 0 {
            assert(u.last() == s@[b - 1]);
        }
        assert(s@.subrange(ja, s.len() as int) =~= t);
    }
    crate::texto::tramo(s, a, b)
}

/// Prepara el texto de un monto para leerlo como número: quita los espacios
/// de los extremos y, si tiene coma, quita los puntos de miles y cambia la
/// coma por punto.
pub fn normalizar_monto(entrada: &str) -> (r: String)
    ensures
        r@ == monto_normalizado(entrada@),
{
    let todos = caracteres(entrada);
    let t = recortar_texto(&todos);
    let mut hay_coma = false;
    let mut i: usize = 0;
    while i < t.len()
        invariant
            i <= t.len(),
            hay_coma == exists|k: int| 0 <= k < i && t@[k] == ',',
        decreases t.len() - i,
    {
        if t[i] == ',' {
            hay_coma = true;
        }
        i = i + 1;
    }
    assert(hay_coma == t@.contains(','));
    if !hay_coma {
        return texto_de(&t);
    }
    let mut r = String::new();
    let mut j: usize = 0;
    assert(t@.take(0) =~= Seq::<char>::empty());
    while j < t.len()
        invariant
            j <= t.len(),
            r@ == a_punto_decimal(t@.take(j as int)),
        decreases t.len() - j,
    {
        let c = t[j];
        if c == ',' {
            empujar(&mut r, '.');
        } else if c != '.' {
            empujar(&mut r, c);
        }
        assert(t@.take(j + 1).drop_last() =~= t@.take(j as int));
        assert(r@ =~= a_punto_decimal(t@.take(j + 1)));
        j = j + 1;
    }
    assert(t@.take(t.len() as int) =~= t@);
    r
}

/// Cómo resultó leer el monto (ya normalizado) como número: no es un
/// número, es un número no positivo o no finito, o es válido.
#[derive(Debug, Clone, Copy, PartialEq, Eq, Structural)]
pub enum EstadoMonto {
    NoNumerico,
    NoPositivo,
    Valido,
}

/// El error del formulario de gastos, o `None` si es válido: se revisan en
/// orden la fecha, su formato, el monto, la descripción, la categoría y la
/// persona.
pub open spec fn error_formulario(
    fecha: Seq<char>,
    monto: Seq<char>,
    estado_monto: EstadoMonto,
    descripcion: Seq<char>,
    hay_categoria: bool,
    hay_persona: bool,
) -> Option<Seq<char>> {
    if en_blanco(fecha) {
        Some("La fecha es obligatoria"@)
    } else if fecha_en_texto(fecha) is None {
        Some("La fecha debe tener el formato DD-MM-AAAA"@)
    } else if en_blanco(monto) {
        Some("El monto es obligatorio"@)
    } else if estado_monto == EstadoMonto::NoNumerico {
        Some("El monto debe ser un numero valido"@)
    } else if estado_monto == EstadoMonto::NoPositivo {
        Some("El monto debe ser mayor a 0"@)
    } else if en_blanco(descripcion) {
        Some("La descripcion es obligatoria"@)
    } else if !hay_categoria {
        Some("Debes seleccionar una categoria"@)
    } else if !hay_persona {
        Some("Debes seleccionar una persona"@)
    } else {
        None
    }
}

/// Valida el formulario de gastos: da el primer error encontrado, en el
/// orden fecha, formato de fecha, monto, descripción, categoría y persona.
pub fn validar(
    fecha: &str,
    monto: &str,
    estado_monto: EstadoMonto,
    descripcion: &str,
    hay_categoria: bool,
    hay_persona: bool,
) -> (r: Result<(), String>)
    ensures
        match (r, error_formulario(fecha@, monto@, estado_monto, descripcion@, hay_categoria, hay_persona)) {
            (Ok(()), None) => true,
            (Err(e), Some(m)) => e@ == m,
            _ => false,
        },
{
    if esta_en_blanco(fecha) {
        return Err(String::from_str("La fecha es obligatoria"));
    }
    if analizar_fecha(fecha).is_none() {
        return Err(String::from_str("La fecha debe tener el formato DD-MM-AAAA"));
    }
    if esta_en_blanco(monto) {
        return Err(String::from_str("El monto es obligatorio"));
    }
    match estado_monto {
        EstadoMonto::NoNumerico => {
            return Err(String::from_str("El monto debe ser un numero valido"));
        },
        EstadoMonto::NoPositivo => {
            return Err(String::from_str("El monto debe ser mayor a 0"));
        },
        EstadoMonto::Valido => {},
    }
    if esta_en_blanco(descripcion) {
        return Err(String::from_str("La descripcion es obligatoria"));
    }
    if !hay_categoria {
        return Err(String::from_str("Debes seleccionar una categoria"));
    }
    if !hay_persona {
        return Err(String::from_str("Debes seleccionar una persona"));
    }
    Ok(())
}

} // verus!
