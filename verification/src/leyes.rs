//! The service's laws, each proved from the handlers' contracts alone: what
//! a successful create returns, when a create conflicts, that an empty
//! update touches nothing, and that a deleted row can no longer be found.

use vstd::prelude::*;
use crate::modelo::AlumnoResponse;
use crate::modelo::ErrorResponse;
use crate::modelo::VistaActualizacion;
use crate::modelo::VistaAlumno;
use crate::modelo::VistaCreacion;
use crate::modelo::CODIGO_CONFLICTO;
use crate::modelo::CODIGO_PETICION_INVALIDA;
use crate::rest::sp_post_actualizar;
use crate::rest::sp_post_crear;
use crate::tabla::existe_email;
use crate::tabla::existe_id;
use crate::tabla::ids_unicos;
use crate::tabla::indice_id;
use crate::tabla::Tabla;
use crate::validacion::creacion_valida;

verus! {

/// Creating a record with valid fields and a free email returns it with the
/// server-assigned identifier (the table's counter), the active flag set,
/// and equal creation and update timestamps.
pub proof fn ley_creacion_valida(
    t0: Tabla,
    t1: Tabla,
    req: VistaCreacion,
    ahora: int,
    r: Result<AlumnoResponse, (u16, ErrorResponse)>,
)
    requires
        sp_post_crear(t0, t1, req, ahora, r),
        creacion_valida(req),
        !existe_email(t0.vista(), req.email),
    ensures
        r matches Ok(resp) && (resp.data matches Some(a) && {
            let fila = a.vista();
            &&& fila.id == t0.siguiente_id as int
            &&& fila.activo
            &&& fila.fecha_registro == fila.fecha_actualizacion
        }),
{
}

/// Creating a record whose email another row already holds is rejected as a
/// conflict, not as a generic failure, and the table is untouched.
pub proof fn ley_creacion_conflicto(
    t0: Tabla,
    t1: Tabla,
    req: VistaCreacion,
    ahora: int,
    r: Result<AlumnoResponse, (u16, ErrorResponse)>,
)
    requires
        sp_post_crear(t0, t1, req, ahora, r),
        creacion_valida(req),
        existe_email(t0.vista(), req.email),
    ensures
        r matches Err(e) && e.0 == CODIGO_CONFLICTO,
        t1 == t0,
{
}

/// Updating an existing record while supplying no field at all is rejected
/// as a bad request and the table is untouched.
pub proof fn ley_actualizacion_vacia(
    t0: Tabla,
    t1: Tabla,
    id: int,
    p: VistaActualizacion,
    ahora: int,
    r: Result<AlumnoResponse, (u16, ErrorResponse)>,
)
    requires
        sp_post_actualizar(t0, t1, id, p, ahora, r),
        existe_id(t0.vista(), id),
        p.sin_campos(),
    ensures
        r matches Err(e) && e.0 == CODIGO_PETICION_INVALIDA,
        t1 == t0,
{
}

/// Removing the row that holds an identifier leaves no row with that
/// identifier: a get after a successful delete is not-found.
pub proof fn ley_eliminado_no_se_encuentra(v: Seq<VistaAlumno>, id: int)
    requires
        ids_unicos(v),
        existe_id(v, id),
    ensures
        !existe_id(v.remove(indice_id(v, id)), id),
{
    let k = indice_id(v, id);
    assert(0 <= k < v.len() && v[k].id == id);
    v.remove_ensures(k);
    let w = v.remove(k);
    assert forall|j: int| 0 <= j < w.len() implies (#[trigger] w[j]).id != id by {
        if j < k {
            assert(w[j] == v[j]);
        } else {
            assert(w[j] == v[j + 1]);
        }
    }
}

} // verus!
