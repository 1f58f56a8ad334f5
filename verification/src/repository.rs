//! Reglas de los datos guardados: qué categoría y qué persona no se
//! pueden eliminar, y a cuáles pasan los gastos de las que se eliminan.

use vstd::prelude::*;
use vstd::string::*;

verus! {

/// El id de la categoría "Sin Categoria", que no se puede eliminar y a la
/// que pasan los gastos de las categorías eliminadas.
pub const CATEGORIA_SIN_CATEGORIA_ID: i32 = 1;

/// El id de la persona "General", que no se puede eliminar y a la que
/// pasan los gastos de las personas eliminadas.
pub const PERSONA_GENERAL_ID: i32 = 1;

/// Comprueba que la categoría `id` se puede eliminar: todas salvo "Sin Categoria".
pub fn comprobar_eliminar_categoria(id: i32) -> (r: Result<(), String>)
    ensures
        r is Err <==> id == CATEGORIA_SIN_CATEGORIA_ID,
        r matches Err(e) ==> e@ == "No se puede eliminar 'Sin Categoria'"@,
{
    if id == CATEGORIA_SIN_CATEGORIA_ID {
        Err(String::from_str("No se puede eliminar 'Sin Categoria'"))
    } else {
        Ok(())
    }
}

/// Comprueba que la persona `id` se puede eliminar: todas salvo "General".
pub fn comprobar_eliminar_persona(id: i32) -> (r: Result<(), String>)
    ensures
        r is Err <==> id == PERSONA_GENERAL_ID,
        r matches Err(e) ==> e@ == "No se puede eliminar 'General'"@,
{
    if id == PERSONA_GENERAL_ID {
        Err(String::from_str("No se puede eliminar 'General'"))
    } else {
        Ok(())
    }
}

} // verus!
