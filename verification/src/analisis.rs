//! Cálculos del panel de análisis que no dependen de montos: el mes
//! anterior y la ubicación de los totales de cada mes de un año.

use vstd::prelude::*;

verus! {

/// El mes anterior a `mes` de `anio`: diciembre del año anterior si `mes`
/// es enero.
pub fn mes_anterior(mes: u32, anio: i32) -> (r: (u32, i32))
    requires
        mes >= 1,
        mes == 1 ==> anio > i32::MIN,
    ensures
        mes == 1 ==> r == (12u32, (anio - 1) as i32),
        mes != 1 ==> r == ((mes - 1) as u32, anio),
{
    if mes == 1 {
        (12, anio - 1)
    } else {
        (mes - 1, anio)
    }
}

/// El primer total de la lista que corresponde a `mes` de `anio`.
pub open spec fn primer_total<T>(totales: Seq<(u32, i32, T)>, mes: u32, anio: i32) -> Option<T>
    decreases totales.len(),
{
    if totales.len() == 0 {
        None
    } else if totales[0].1 == anio && totales[0].0 == mes {
        Some(totales[0].2)
    } else {
        primer_total(totales.drop_first(), mes, anio)
    }
}

/// El total de `mes` de `anio` en la lista, o `cero` si no figura.
fn total_del_mes<T: Copy>(totales: &Vec<(u32, i32, T)>, mes: u32, anio: i32, cero: T) -> (r: T)
    ensures
        r == match primer_total(totales@, mes, anio) {
            Some(t) => t,
            None => cero,
        },
{
    let mut i: usize = 0;
    let ghost mut j: int = 0;
    assert(totales@.skip(0) =~= totales@);
    while i < totales.len()
        invariant
            i <= totales.len(),
            j == i,
            primer_total(totales@, mes, anio) == primer_total(totales@.skip(j), mes, anio),
        decreases totales.len() - i,
    {
        assert(totales@.skip(j)[0] == totales@[j]);
        if totales[i].1 == anio && totales[i].0 == mes {
            return totales[i].2;
        }
        assert(totales@.skip(j).drop_first() =~= totales@.skip(j + 1));
        i = i + 1;
        proof {
            j = j + 1;
        }
    }
    assert(totales@.skip(j) =~= Seq::<(u32, i32, T)>::empty());
    cero
}

/// Los totales de los doce meses de `anio`, de enero a diciembre: para
/// cada mes el primero de la lista que le corresponde, o `cero` si ninguno.
pub fn totales_del_anio<T: Copy>(totales: &Vec<(u32, i32, T)>, anio: i32, cero: T) -> (r: Vec<T>)
    ensures
        r@.len() == 12,
        forall|m: int| 1 <= m <= 12 ==> #[trigger] r@[m - 1] == match primer_total(totales@, m as u32, anio) {
            Some(t) => t,
            None => cero,
        },
{
    let mut r: Vec<T> = Vec::new();
    let mut mes: u32 = 1;
    while mes <= 12
        invariant
            1 <= mes <= 13,
            r@.len() == mes - 1,
            forall|m: int| 1 <= m < mes ==> #[trigger] r@[m - 1] == match primer_total(totales@, m as u32, anio) {
                Some(t) => t,
                None => cero,
            },
        decreases 13 - mes,
    {
        r.push(total_del_mes(totales, mes, anio, cero));
        mes = mes + 1;
    }
    r
}

} // verus!
