//! The GraphQL-style surface: the same table, two queries and three
//! mutations. Unlike the REST surface it validates nothing, updates without
//! an existence pre-check (an unknown identifier simply comes back as
//! nothing), and reports a deletion as a plain flag.

use vstd::prelude::*;
use crate::listado::paginar;
use crate::modelo::Alumno;
use crate::modelo::UpdateAlumnoRequest;
use crate::modelo::VistaActualizacion;
use crate::modelo::VistaCreacion;
use crate::reloj::ahora_micros;
use crate::rest::sp_fila_creada;
use crate::rest::sp_mezcla;
use crate::tabla::existe_email;
use crate::tabla::existe_email_ajeno;
use crate::tabla::existe_id;
use crate::tabla::fila_id;
use crate::tabla::indice_id;
use crate::tabla::sp_ordenar_en;
use crate::tabla::vistas;
use crate::tabla::Tabla;

verus! {

/// What the store can refuse: the only constraint it enforces itself is the
/// unique email key.
#[derive(Debug, PartialEq, Eq, Structural)]
pub enum ErrorAlmacen {
    EmailDuplicado,
}

/// The queries: the whole table, and one row by identifier.
pub struct QueryRoot;

/// The mutations: create, partial update, delete.
pub struct MutationRoot;

impl QueryRoot {
    /// Every row, in listing order.
    pub fn alumnos(&self, tabla: &Tabla) -> (r: Vec<Alumno>)
        ensures
            vistas(r@) == tabla.vista(),
    {
        let n = tabla.filas.len();
        let r = paginar(&tabla.filas, 0, n);
        proof {
            assert(vistas(tabla.filas@).subrange(0, vistas(tabla.filas@).len() as int) =~= vistas(
                tabla.filas@,
            ));
        }
        r
    }

    /// One row by identifier, or nothing.
    pub fn alumno(&self, tabla: &Tabla, id: i32) -> (r: Option<Alumno>)
        requires
            tabla.bien_formada(),
        ensures
            (r is Some) == existe_id(tabla.vista(), id as int),
            r matches Some(a) ==> a.vista() == fila_id(tabla.vista(), id as int),
    {
        tabla.buscar(id)
    }
}

/// Everything the create mutation does: a taken email is refused; otherwise
/// the row is inserted unvalidated, active, with both timestamps at `ahora`,
/// and returned.
pub open spec fn sp_post_crear_gql(
    t0: Tabla,
    t1: Tabla,
    req: VistaCreacion,
    ahora: int,
    r: Result<Alumno, ErrorAlmacen>,
) -> bool {
    if existe_email(t0.vista(), req.email) {
        &&& t1 == t0
        &&& r matches Err(e) && e == ErrorAlmacen::EmailDuplicado
    } else {
        let fila = sp_fila_creada(req, t0.siguiente_id as int, ahora);
        &&& t1.vista() == sp_ordenar_en(t0.vista(), fila)
        &&& t1.siguiente_id == t0.siguiente_id + 1
        &&& r matches Ok(a) && a.vista() == fila
    }
}

/// Everything the update mutation does: an unknown identifier comes back as
/// nothing with the table untouched; an email another row holds is refused;
/// otherwise the supplied fields and the update timestamp change and the new
/// row comes back.
pub open spec fn sp_post_editar(
    t0: Tabla,
    t1: Tabla,
    id: int,
    p: VistaActualizacion,
    ahora: int,
    r: Result<Option<Alumno>, ErrorAlmacen>,
) -> bool {
    if !existe_id(t0.vista(), id) {
        &&& t1 == t0
        &&& r matches Ok(o) && o is None
    } else if p.email matches Some(correo) && existe_email_ajeno(t0.vista(), correo, id) {
        &&& t1 == t0
        &&& r matches Err(e) && e == ErrorAlmacen::EmailDuplicado
    } else {
        let nueva = sp_mezcla(fila_id(t0.vista(), id), p, ahora);
        &&& t1.vista() == t0.vista().update(indice_id(t0.vista(), id), nueva)
        &&& t1.siguiente_id == t0.siguiente_id
        &&& r matches Ok(o) && (o matches Some(a) && a.vista() == nueva)
    }
}

impl MutationRoot {
    /// Creates a student at the given instant; see `sp_post_crear_gql`.
    pub fn crear_alumno_con_fecha(
        &self,
        tabla: &mut Tabla,
        nombre: String,
        apellido: String,
        email: String,
        edad: i32,
        carrera: String,
        semestre: i32,
        promedio: u32,
        ahora: i64,
    ) -> (r: Result<Alumno, ErrorAlmacen>)
        requires
            old(tabla).bien_formada(),
            old(tabla).siguiente_id < i32::MAX,
        ensures
            final(tabla).bien_formada(),
            sp_post_crear_gql(
                *old(tabla),
                *final(tabla),
                VistaCreacion {
                    nombre: nombre@,
                    apellido: apellido@,
                    email: email@,
                    edad: edad as int,
                    carrera: carrera@,
                    semestre: semestre as int,
                    promedio: Some(promedio as int),
                },
                ahora as int,
                r,
            ),
    {
        if tabla.email_ocupado(&email) {
            return Err(ErrorAlmacen::EmailDuplicado);
        }
        let id = tabla.siguiente_id;
        tabla.siguiente_id = id + 1;
        let fila = Alumno {
            id,
            nombre,
            apellido,
            email,
            edad,
            carrera,
            semestre,
            promedio,
            activo: true,
            fecha_registro: ahora,
            fecha_actualizacion: ahora,
        };
        let copia = fila.clonar();
        proof {
            assert(!existe_id(tabla.vista(), fila.vista().id));
        }
        tabla.insertar_ordenada(fila);
        Ok(copia)
    }

    /// Creates a student, stamping both timestamps with the server clock.
    pub fn crear_alumno(
        &self,
        tabla: &mut Tabla,
        nombre: String,
        apellido: String,
        email: String,
        edad: i32,
        carrera: String,
        semestre: i32,
        promedio: u32,
    ) -> (r: Result<Alumno, ErrorAlmacen>)
        requires
            old(tabla).bien_formada(),
            old(tabla).siguiente_id < i32::MAX,
        ensures
            final(tabla).bien_formada(),
            exists|ahora: int|
                sp_post_crear_gql(
                    *old(tabla),
                    *final(tabla),
                    VistaCreacion {
                        nombre: nombre@,
                        apellido: apellido@,
                        email: email@,
                        edad: edad as int,
                        carrera: carrera@,
                        semestre: semestre as int,
                        promedio: Some(promedio as int),
                    },
                    ahora,
                    r,
                ),
    {
        let ahost = ahora_micros();
        let ghost vc = VistaCreacion {
            nombre: nombre@,
            apellido: apellido@,
            email: email@,
            edad: edad as int,
            carrera: carrera@,
            semestre: semestre as int,
            promedio: Some(promedio as int),
        };
        let r = self.crear_alumno_con_fecha(
            tabla,
            nombre,
            apellido,
            email,
            edad,
            carrera,
            semestre,
            promedio,
            ahost,
        );
        proof {
            assert(sp_post_crear_gql(*old(tabla), *tabla, vc, ahost as int, r));
        }
        r
    }

    /// Updates a student at the given instant; see `sp_post_editar`.
    pub fn editar_alumno_con_fecha(
        &self,
        tabla: &mut Tabla,
        id: i32,
        cambios: UpdateAlumnoRequest,
        ahora: i64,
    ) -> (r: Result<Option<Alumno>, ErrorAlmacen>)
        requires
            old(tabla).bien_formada(),
        ensures
            final(tabla).bien_formada(),
            sp_post_editar(
                *old(tabla),
                *final(tabla),
                id as int,
                cambios.vista(),
                ahora as int,
                r,
            ),
    {
        let vieja = match tabla.buscar(id) {
            Some(v) => v,
            None => {
                return Ok(None);
            },
        };
        match cambios.email {
            Some(ref correo) => {
                if tabla.email_ocupado_por_otro(correo, id) {
                    return Err(ErrorAlmacen::EmailDuplicado);
                }
            },
            None => {},
        }
        let nueva = Alumno {
            id,
            nombre: match cambios.nombre {
                Some(s) => s,
                None => vieja.nombre,
            },
            apellido: match cambios.apellido {
                Some(s) => s,
                None => vieja.apellido,
            },
            email: match cambios.email {
                Some(s) => s,
                None => vieja.email,
            },
            edad: match cambios.edad {
                Some(n) => n,
                None => vieja.edad,
            },
            carrera: match cambios.carrera {
                Some(s) => s,
                None => vieja.carrera,
            },
            semestre: match cambios.semestre {
                Some(n) => n,
                None => vieja.semestre,
            },
            promedio: match cambios.promedio {
                Some(n) => n,
                None => vieja.promedio,
            },
            activo: match cambios.activo {
                Some(b) => b,
                None => vieja.activo,
            },
            fecha_registro: vieja.fecha_registro,
            fecha_actualizacion: ahora,
        };
        let copia = nueva.clonar();
        proof {
            let v = tabla.vista();
            let k = indice_id(v, id as int);
            assert(0 <= k < v.len() && v[k].id == id as int);
            if existe_email_ajeno(v, nueva.vista().email, id as int) {
                let j = choose|j: int|
                    0 <= j < v.len() && (#[trigger] v[j]).email == nueva.vista().email && v[j].id
                        != id as int;
                assert(v[j].email == v[k].email);
                assert(false);
            }
        }
        tabla.reemplazar(id, nueva);
        Ok(Some(copia))
    }

    /// Updates a student, stamping the update timestamp with the server
    /// clock.
    pub fn editar_alumno(&self, tabla: &mut Tabla, id: i32, cambios: UpdateAlumnoRequest) -> (r:
        Result<Option<Alumno>, ErrorAlmacen>)
        requires
            old(tabla).bien_formada(),
        ensures
            final(tabla).bien_formada(),
            exists|ahora: int|
                sp_post_editar(*old(tabla), *final(tabla), id as int, cambios.vista(), ahora, r),
    {
        let ahora = ahora_micros();
        let ghost vc = cambios.vista();
        let r = self.editar_alumno_con_fecha(tabla, id, cambios, ahora);
        proof {
            assert(sp_post_editar(*old(tabla), *tabla, id as int, vc, ahora as int, r));
        }
        r
    }

    /// Deletes a student; reports whether a row went away.
    pub fn eliminar_alumno(&self, tabla: &mut Tabla, id: i32) -> (r: bool)
        requires
            old(tabla).bien_formada(),
        ensures
            final(tabla).bien_formada(),
            r == existe_id(old(tabla).vista(), id as int),
            r ==> final(tabla).vista() == old(tabla).vista().remove(
                indice_id(old(tabla).vista(), id as int),
            ),
            !r ==> *final(tabla) == *old(tabla),
            !existe_id(final(tabla).vista(), id as int),
    {
        tabla.quitar(id)
    }
}

} // verus!
