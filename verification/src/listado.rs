//! The listing logic: normalisation of page and page size, the filter
//! predicate (case-insensitive substring search on the name fields, exact
//! programme match, active flag), and the page cut.

use vstd::prelude::*;
use crate::cadenas::contiene;
use crate::cadenas::es_subcadena;
use crate::cadenas::minusculas;
use crate::cadenas::minusculas_de;
use crate::cadenas::textos_iguales;
use crate::modelo::Alumno;
use crate::modelo::PaginationQuery;
use crate::modelo::VistaAlumno;
use crate::modelo::VistaConsulta;
use crate::tabla::lema_vistas;
use crate::tabla::vistas;

verus! {

/// The page number that the listing uses: the supplied one floored to 1,
/// or 1 when absent.
pub open spec fn sp_pagina(p: Option<int>) -> int {
    match p {
        Some(n) => if n < 1 {
            1
        } else {
            n
        },
        None => 1,
    }
}

/// The page size that the listing uses: the supplied one clamped to 1..=100,
/// or 10 when absent.
pub open spec fn sp_limite(l: Option<int>) -> int {
    let crudo = match l {
        Some(n) => n,
        None => 10,
    };
    let techo = if crudo > 100 {
        100
    } else {
        crudo
    };
    if techo < 1 {
        1
    } else {
        techo
    }
}

/// How many rows the listing skips: the page number minus one, times the
/// page size.
pub open spec fn sp_desplazamiento(c: VistaConsulta) -> int {
    (sp_pagina(c.page) - 1) * sp_limite(c.limit)
}

/// Whether a row passes the filters: the search term, lowered, occurs in the
/// lowered first or last name; the programme matches exactly; the active
/// flag matches. An absent filter passes everything.
pub open spec fn sp_coincide(a: VistaAlumno, c: VistaConsulta) -> bool {
    &&& match c.search {
        Some(b) => es_subcadena(minusculas_de(b), minusculas_de(a.nombre)) || es_subcadena(
            minusculas_de(b),
            minusculas_de(a.apellido),
        ),
        None => true,
    }
    &&& match c.carrera {
        Some(ca) => a.carrera == ca,
        None => true,
    }
    &&& match c.activo {
        Some(x) => a.activo == x,
        None => true,
    }
}

/// The rows that pass the filters, in order.
pub open spec fn sp_filtradas(v: Seq<VistaAlumno>, c: VistaConsulta) -> Seq<VistaAlumno>
    decreases v.len(),
{
    if v.len() == 0 {
        Seq::empty()
    } else {
        sp_filtradas(v.drop_last(), c) + (if sp_coincide(v.last(), c) {
            seq![v.last()]
        } else {
            Seq::<VistaAlumno>::empty()
        })
    }
}

/// Filtering keeps at most every row.
pub proof fn lema_filtradas_len(v: Seq<VistaAlumno>, c: VistaConsulta)
    ensures
        sp_filtradas(v, c).len() <= v.len(),
    decreases v.len(),
{
    if v.len() > 0 {
        lema_filtradas_len(v.drop_last(), c);
    }
}

/// Normalised page and page size of a request.
pub fn normalizar(params: &PaginationQuery) -> (r: (i32, i32))
    ensures
        r.0 as int == sp_pagina(params.vista().page),
        r.1 as int == sp_limite(params.vista().limit),
        1 <= r.0,
        1 <= r.1 <= 100,
{
    let pagina = match params.page {
        Some(n) => if n < 1 {
            1
        } else {
            n
        },
        None => 1,
    };
    let crudo = match params.limit {
        Some(n) => n,
        None => 10,
    };
    let techo = if crudo > 100 {
        100
    } else {
        crudo
    };
    let limite = if techo < 1 {
        1
    } else {
        techo
    };
    (pagina, limite)
}

/// Whether one row passes the filters. `busqueda_min` must be the lowered
/// search term when one was supplied.
fn coincide_fila(fila: &Alumno, busqueda_min: &Option<String>, params: &PaginationQuery) -> (r:
    bool)
    requires
        match params.vista().search {
            Some(b) => busqueda_min matches Some(m) && m@ == minusculas_de(b),
            None => busqueda_min is None,
        },
    ensures
        r == sp_coincide(fila.vista(), params.vista()),
{
    let pasa_busqueda = match busqueda_min {
        Some(b) => {
            let nombre_min = minusculas(fila.nombre.as_str());
            if contiene(nombre_min.as_str(), b.as_str()) {
                true
            } else {
                let apellido_min = minusculas(fila.apellido.as_str());
                contiene(apellido_min.as_str(), b.as_str())
            }
        },
        None => true,
    };
    if !pasa_busqueda {
        return false;
    }
    let pasa_carrera = match params.carrera {
        Some(ref ca) => textos_iguales(fila.carrera.as_str(), ca.as_str()),
        None => true,
    };
    if !pasa_carrera {
        return false;
    }
    match params.activo {
        Some(x) => fila.activo == x,
        None => true,
    }
}

/// Copies of the rows that pass the filters, in table order.
pub fn filtrar(filas: &Vec<Alumno>, params: &PaginationQuery) -> (r: Vec<Alumno>)
    ensures
        vistas(r@) == sp_filtradas(vistas(filas@), params.vista()),
{
    let busqueda_min: Option<String> = match params.search {
        Some(ref b) => Some(minusculas(b.as_str())),
        None => None,
    };
    let ghost v = vistas(filas@);
    let mut r: Vec<Alumno> = Vec::new();
    let mut i: usize = 0;
    proof {
        lema_vistas(filas@);
        assert(vistas(r@) =~= sp_filtradas(v.subrange(0, 0), params.vista()));
    }
    while i < filas.len()
        invariant
            i <= filas.len(),
            v == vistas(filas@),
            v.len() == filas@.len(),
            forall|j: int| 0 <= j < filas@.len() ==> #[trigger] v[j] == filas@[j].vista(),
            match params.vista().search {
                Some(b) => busqueda_min matches Some(m) && m@ == minusculas_de(b),
                None => busqueda_min is None,
            },
            vistas(r@) == sp_filtradas(v.subrange(0, i as int), params.vista()),
        decreases filas.len() - i,
    {
        let ghost antes_r = r@;
        let pasa = coincide_fila(&filas[i], &busqueda_min, params);
        if pasa {
            let copia = filas[i].clonar();
            r.push(copia);
        }
        proof {
            lema_vistas(antes_r);
            lema_vistas(r@);
            let pre = v.subrange(0, i as int);
            let cur = v.subrange(0, i + 1);
            assert(cur.drop_last() =~= pre);
            assert(cur.last() == v[i as int]);
            assert(vistas(r@) =~= sp_filtradas(cur, params.vista()));
        }
        i += 1;
    }
    proof {
        assert(v.subrange(0, filas@.len() as int) =~= v);
    }
    r
}

/// The page cut `[desde, hasta)` of the filtered rows, as copies.
pub fn paginar(filtradas: &Vec<Alumno>, desde: usize, hasta: usize) -> (r: Vec<Alumno>)
    requires
        desde <= hasta <= filtradas@.len(),
    ensures
        vistas(r@) == vistas(filtradas@).subrange(desde as int, hasta as int),
{
    let mut r: Vec<Alumno> = Vec::new();
    let mut i: usize = desde;
    proof {
        lema_vistas(filtradas@);
        assert(vistas(r@) =~= vistas(filtradas@).subrange(desde as int, desde as int));
    }
    while i < hasta
        invariant
            desde <= i <= hasta <= filtradas@.len(),
            vistas(r@) == vistas(filtradas@).subrange(desde as int, i as int),
            forall|j: int|
                0 <= j < filtradas@.len() ==> #[trigger] vistas(filtradas@)[j]
                    == filtradas@[j].vista(),
        decreases hasta - i,
    {
        let ghost antes_r = r@;
        r.push(filtradas[i].clonar());
        proof {
            lema_vistas(antes_r);
            lema_vistas(r@);
            assert(vistas(r@) =~= vistas(filtradas@).subrange(desde as int, i + 1));
        }
        i += 1;
    }
    r
}

} // verus!
