//! Categorías, personas y configuración, con búsquedas por id y por nombre.

use vstd::prelude::*;
use crate::texto::textos_iguales;

verus! {

/// Una categoría de gasto.
#[derive(Debug, Clone, PartialEq, Eq)]
pub struct Categoria {
    pub id: i32,
    pub nombre: String,
}

/// Una persona a la que se atribuye un gasto.
#[derive(Debug, Clone, PartialEq, Eq)]
pub struct Persona {
    pub id: i32,
    pub nombre: String,
}

/// El mes y el año que se muestran por defecto.
#[derive(Debug, Clone)]
pub struct Configuracion {
    pub mes_default: u32,
    pub anio_default: i32,
}

impl Default for Configuracion {
    /// La configuración con que se arranca si no se puede leer la guardada:
    /// agosto de 2026.
    fn default() -> (r: Configuracion)
        ensures
            r.mes_default == 8,
            r.anio_default == 2026,
    {
        Configuracion { mes_default: 8, anio_default: 2026 }
    }
}

impl View for Categoria {
    type V = (i32, Seq<char>);

    open spec fn view(&self) -> (i32, Seq<char>) {
        (self.id, self.nombre@)
    }
}

impl View for Persona {
    type V = (i32, Seq<char>);

    open spec fn view(&self) -> (i32, Seq<char>) {
        (self.id, self.nombre@)
    }
}

impl Categoria {
    /// Una copia de la categoría.
    pub fn copiar(&self) -> (r: Categoria)
        ensures
            r == *self,
    {
        Categoria { id: self.id, nombre: self.nombre.clone() }
    }
}

impl Persona {
    /// Una copia de la persona.
    pub fn copiar(&self) -> (r: Persona)
        ensures
            r == *self,
    {
        Persona { id: self.id, nombre: self.nombre.clone() }
    }
}

impl Configuracion {
    /// Una copia de la configuración.
    pub fn copiar(&self) -> (r: Configuracion)
        ensures
            r.mes_default == self.mes_default,
            r.anio_default == self.anio_default,
    {
        Configuracion { mes_default: self.mes_default, anio_default: self.anio_default }
    }
}

/// La posición del primer elemento de `vistas` cuyo primer componente
/// cumple `p`, o `None` si ninguno.
pub open spec fn primera_posicion(vistas: Seq<(i32, Seq<char>)>, p: spec_fn((i32, Seq<char>)) -> bool) -> Option<int>
    decreases vistas.len(),
{
    if vistas.len() == 0 {
        None
    } else if p(vistas[0]) {
        Some(0)
    } else {
        match primera_posicion(vistas.drop_first(), p) {
            Some(i) => Some(i + 1),
            None => None,
        }
    }
}

/// El primer elemento con el id dado.
pub open spec fn con_id(id: i32) -> spec_fn((i32, Seq<char>)) -> bool {
    |x: (i32, Seq<char>)| x.0 == id
}

/// El primer elemento con el nombre dado.
pub open spec fn con_nombre(nombre: Seq<char>) -> spec_fn((i32, Seq<char>)) -> bool {
    |x: (i32, Seq<char>)| x.1 == nombre
}

/// Las vistas de una lista de categorías.
pub open spec fn vistas_categorias(v: Seq<Categoria>) -> Seq<(i32, Seq<char>)> {
    v.map_values(|c: Categoria| c@)
}

/// Las vistas de una lista de personas.
pub open spec fn vistas_personas(v: Seq<Persona>) -> Seq<(i32, Seq<char>)> {
    v.map_values(|c: Persona| c@)
}

/// Un elemento buscado en una lista: la copia del primero que cumple la
/// condición, o `None`.
pub open spec fn encontrado<T>(lista: Seq<T>, vistas: Seq<(i32, Seq<char>)>, p: spec_fn((i32, Seq<char>)) -> bool, r: Option<T>) -> bool {
    match (r, primera_posicion(vistas, p)) {
        (Some(x), Some(i)) => x == lista[i],
        (None, None) => true,
        _ => false,
    }
}

/// Avanzar una posición en la búsqueda.
proof fn lema_primera_posicion(vistas: Seq<(i32, Seq<char>)>, p: spec_fn((i32, Seq<char>)) -> bool, k: int)
    requires
        0 <= k <= vistas.len(),
        forall|j: int| 0 <= j < k ==> !p(#[trigger] vistas[j]),
    ensures
        primera_posicion(vistas, p) == match primera_posicion(vistas.skip(k), p) {
            Some(i) => Some(i + k),
            None => None::<int>,
        },
    decreases k,
{
    if k > 0 {
        assert(!p(vistas[0]));
        let t = vistas.drop_first();
        assert forall|j: int| 0 <= j < k - 1 implies !p(#[trigger] t[j]) by {
            assert(t[j] == vistas[j + 1]);
        }
        lema_primera_posicion(t, p, k - 1);
        assert(t.skip(k - 1) =~= vistas.skip(k));
    } else {
        assert(vistas.skip(0) =~= vistas);
    }
}

/// La posición encontrada está en la lista y cumple la condición; no se
/// encuentra ninguna sólo si ningún elemento la cumple.
pub proof fn lema_primera_posicion_cumple(vistas: Seq<(i32, Seq<char>)>, p: spec_fn((i32, Seq<char>)) -> bool)
    ensures
        primera_posicion(vistas, p) matches Some(i) ==> 0 <= i < vistas.len() && p(vistas[i]),
        primera_posicion(vistas, p) is None <==> forall|i: int| 0 <= i < vistas.len() ==> !p(#[trigger] vistas[i]),
    decreases vistas.len(),
{
    if vistas.len() > 0 && !p(vistas[0]) {
        let t = vistas.drop_first();
        lema_primera_posicion_cumple(t, p);
        if primera_posicion(t, p) is None {
            assert forall|i: int| 0 <= i < vistas.len() implies !p(#[trigger] vistas[i]) by {
                if i > 0 {
                    assert(vistas[i] == t[i - 1]);
                }
            }
        } else {
            let j = primera_posicion(t, p)->0;
            assert(vistas[j + 1] == t[j]);
        }
    }
}

/// La primera categoría con el id dado.
pub fn categoria_por_id(categorias: &Vec<Categoria>, id: i32) -> (r: Option<Categoria>)
    ensures
        encontrado(categorias@, vistas_categorias(categorias@), con_id(id), r),
{
    let ghost v = vistas_categorias(categorias@);
    let mut i: usize = 0;
    while i < categorias.len()
        invariant
            v == vistas_categorias(categorias@),
            i <= categorias.len(),
            forall|j: int| 0 <= j < i ==> !con_id(id)(#[trigger] v[j]),
        decreases categorias.len() - i,
    {
        if categorias[i].id == id {
            proof {
                lema_primera_posicion(v, con_id(id), i as int);
                assert(con_id(id)(v.skip(i as int)[0]));
            }
            return Some(categorias[i].copiar());
        }
        i = i + 1;
    }
    proof {
        lema_primera_posicion(v, con_id(id), i as int);
        assert(v.skip(i as int) =~= Seq::<(i32, Seq<char>)>::empty());
    }
    None
}

/// La primera categoría con el nombre dado.
pub fn categoria_por_nombre(categorias: &Vec<Categoria>, nombre: &str) -> (r: Option<Categoria>)
    ensures
        encontrado(categorias@, vistas_categorias(categorias@), con_nombre(nombre@), r),
{
    let ghost v = vistas_categorias(categorias@);
    let mut i: usize = 0;
    while i < categorias.len()
        invariant
            v == vistas_categorias(categorias@),
            i <= categorias.len(),
            forall|j: int| 0 <= j < i ==> !con_nombre(nombre@)(#[trigger] v[j]),
        decreases categorias.len() - i,
    {
        if textos_iguales(categorias[i].nombre.as_str(), nombre) {
            proof {
                lema_primera_posicion(v, con_nombre(nombre@), i as int);
                assert(con_nombre(nombre@)(v.skip(i as int)[0]));
            }
            return Some(categorias[i].copiar());
        }
        i = i + 1;
    }
    proof {
        lema_primera_posicion(v, con_nombre(nombre@), i as int);
        assert(v.skip(i as int) =~= Seq::<(i32, Seq<char>)>::empty());
    }
    None
}

/// La primera persona con el id dado.
pub fn persona_por_id(personas: &Vec<Persona>, id: i32) -> (r: Option<Persona>)
    ensures
        encontrado(personas@, vistas_personas(personas@), con_id(id), r),
{
    let ghost v = vistas_personas(personas@);
    let mut i: usize = 0;
    while i < personas.len()
        invariant
            v == vistas_personas(personas@),
            i <= personas.len(),
            forall|j: int| 0 <= j < i ==> !con_id(id)(#[trigger] v[j]),
        decreases personas.len() - i,
    {
        if personas[i].id == id {
            proof {
                lema_primera_posicion(v, con_id(id), i as int);
                assert(con_id(id)(v.skip(i as int)[0]));
            }
            return Some(personas[i].copiar());
        }
        i = i + 1;
    }
    proof {
        lema_primera_posicion(v, con_id(id), i as int);
        assert(v.skip(i as int) =~= Seq::<(i32, Seq<char>)>::empty());
    }
    None
}

/// La primera persona con el nombre dado.
pub fn persona_por_nombre(personas: &Vec<Persona>, nombre: &str) -> (r: Option<Persona>)
    ensures
        encontrado(personas@, vistas_personas(personas@), con_nombre(nombre@), r),
{
    let ghost v = vistas_personas(personas@);
    let mut i: usize = 0;
    while i < personas.len()
        invariant
            v == vistas_personas(personas@),
            i <= personas.len(),
            forall|j: int| 0 <= j < i ==> !con_nombre(nombre@)(#[trigger] v[j]),
        decreases personas.len() - i,
    {
        if textos_iguales(personas[i].nombre.as_str(), nombre) {
            proof {
                lema_primera_posicion(v, con_nombre(nombre@), i as int);
                assert(con_nombre(nombre@)(v.skip(i as int)[0]));
            }
            return Some(personas[i].copiar());
        }
        i = i + 1;
    }
    proof {
        lema_primera_posicion(v, con_nombre(nombre@), i as int);
        assert(v.skip(i as int) =~= Seq::<(i32, Seq<char>)>::empty());
    }
    None
}

} // verus!
