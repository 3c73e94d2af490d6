//! The five REST-style operations, verified against the table model. Each
//! handler states, for every input, exactly which envelope comes back and how
//! the table changes. The operations that stamp timestamps exist twice: a
//! variant taking the instant, with the full contract, and the plain form
//! that reads the server clock.

use vstd::prelude::*;
use vstd::math::min;
use crate::listado::sp_desplazamiento;
use crate::listado::sp_filtradas;
use crate::listado::sp_limite;
use crate::listado::filtrar;
use crate::listado::lema_filtradas_len;
use crate::listado::normalizar;
use crate::listado::paginar;
use crate::modelo::Alumno;
use crate::modelo::AlumnoResponse;
use crate::modelo::AlumnosResponse;
use crate::modelo::CreateAlumnoRequest;
use crate::modelo::ErrorResponse;
use crate::modelo::PaginationQuery;
use crate::modelo::UpdateAlumnoRequest;
use crate::modelo::VistaActualizacion;
use crate::modelo::VistaAlumno;
use crate::modelo::VistaCreacion;
use crate::modelo::CODIGO_CONFLICTO;
use crate::modelo::CODIGO_NO_ENCONTRADO;
use crate::modelo::CODIGO_PETICION_INVALIDA;
use crate::reloj::ahora_micros;
use crate::tabla::existe_email;
use crate::tabla::existe_email_ajeno;
use crate::tabla::existe_id;
use crate::tabla::fila_id;
use crate::tabla::indice_id;
use crate::tabla::sp_ordenar_en;
use crate::tabla::vistas;
use crate::tabla::Tabla;
use crate::validacion::actualizacion_valida;
use crate::validacion::creacion_valida;
use crate::validacion::errores_actualizacion;
use crate::validacion::errores_creacion;
use crate::validacion::validar_actualizacion;
use crate::validacion::validar_creacion;

verus! {

/// A failure envelope with the message and no per-field list.
pub open spec fn sp_error(e: ErrorResponse, mensaje: Seq<char>) -> bool {
    &&& !e.success
    &&& e.message@ == mensaje
    &&& e.errors is None
}

/// A failure envelope with the message and exactly the given per-field list.
pub open spec fn sp_error_con_lista(
    e: ErrorResponse,
    mensaje: Seq<char>,
    errores: Seq<Seq<char>>,
) -> bool {
    &&& !e.success
    &&& e.message@ == mensaje
    &&& e.errors matches Some(l) && l.deep_view() == errores
}

/// The row that a valid create request inserts.
pub open spec fn sp_fila_creada(req: VistaCreacion, id: int, ahora: int) -> VistaAlumno {
    VistaAlumno {
        id: id,
        nombre: req.nombre,
        apellido: req.apellido,
        email: req.email,
        edad: req.edad,
        carrera: req.carrera,
        semestre: req.semestre,
        promedio: req.promedio_efectivo(),
        activo: true,
        fecha_registro: ahora,
        fecha_actualizacion: ahora,
    }
}

/// Everything the create operation does, for every input: an invalid body is
/// rejected with the per-field messages and the table untouched; a taken
/// email is a conflict; otherwise the row is inserted with the next
/// identifier, active, both timestamps at `ahora`, and returned.
pub open spec fn sp_post_crear(
    t0: Tabla,
    t1: Tabla,
    req: VistaCreacion,
    ahora: int,
    r: Result<AlumnoResponse, (u16, ErrorResponse)>,
) -> bool {
    if !creacion_valida(req) {
        &&& t1 == t0
        &&& r matches Err(e) && e.0 == CODIGO_PETICION_INVALIDA && sp_error_con_lista(
            e.1,
            "Datos de entrada inválidos"@,
            errores_creacion(req),
        )
    } else if existe_email(t0.vista(), req.email) {
        &&& t1 == t0
        &&& r matches Err(e) && e.0 == CODIGO_CONFLICTO && sp_error(e.1, "El email ya existe"@)
    } else {
        let fila = sp_fila_creada(req, t0.siguiente_id as int, ahora);
        &&& t1.vista() == sp_ordenar_en(t0.vista(), fila)
        &&& t1.siguiente_id == t0.siguiente_id + 1
        &&& r matches Ok(resp) && (resp.success && resp.message@
            == "Alumno creado exitosamente"@ && (resp.data matches Some(a) && a.vista() == fila))
    }
}

/// The row after a partial update: supplied fields replaced, the update
/// timestamp refreshed, identifier and registration time kept.
pub open spec fn sp_mezcla(vieja: VistaAlumno, p: VistaActualizacion, ahora: int) -> VistaAlumno {
    VistaAlumno {
        id: vieja.id,
        nombre: match p.nombre {
            Some(s) => s,
            None => vieja.nombre,
        },
        apellido: match p.apellido {
            Some(s) => s,
            None => vieja.apellido,
        },
        email: match p.email {
            Some(s) => s,
            None => vieja.email,
        },
        edad: match p.edad {
            Some(n) => n,
            None => vieja.edad,
        },
        carrera: match p.carrera {
            Some(s) => s,
            None => vieja.carrera,
        },
        semestre: match p.semestre {
            Some(n) => n,
            None => vieja.semestre,
        },
        promedio: match p.promedio {
            Some(n) => n,
            None => vieja.promedio,
        },
        activo: match p.activo {
            Some(b) => b,
            None => vieja.activo,
        },
        fecha_registro: vieja.fecha_registro,
        fecha_actualizacion: ahora,
    }
}

/// Everything the update operation does, for every input: an invalid body is
/// rejected with the per-field messages; an unknown identifier is not found;
/// an empty body is a bad request; an email another row holds is a conflict;
/// otherwise exactly the supplied columns and the update timestamp change,
/// and the new row is returned. On every rejection the table is untouched.
pub open spec fn sp_post_actualizar(
    t0: Tabla,
    t1: Tabla,
    id: int,
    p: VistaActualizacion,
    ahora: int,
    r: Result<AlumnoResponse, (u16, ErrorResponse)>,
) -> bool {
    if !actualizacion_valida(p) {
        &&& t1 == t0
        &&& r matches Err(e) && e.0 == CODIGO_PETICION_INVALIDA && sp_error_con_lista(
            e.1,
            "Datos de entrada inválidos"@,
            errores_actualizacion(p),
        )
    } else if !existe_id(t0.vista(), id) {
        &&& t1 == t0
        &&& r matches Err(e) && e.0 == CODIGO_NO_ENCONTRADO && sp_error(e.1, "Alumno no encontrado"@)
    } else if p.sin_campos() {
        &&& t1 == t0
        &&& r matches Err(e) && e.0 == CODIGO_PETICION_INVALIDA && sp_error(
            e.1,
            "No hay campos para actualizar"@,
        )
    } else if p.email matches Some(correo) && existe_email_ajeno(t0.vista(), correo, id) {
        &&& t1 == t0
        &&& r matches Err(e) && e.0 == CODIGO_CONFLICTO && sp_error(e.1, "El email ya existe"@)
    } else {
        let nueva = sp_mezcla(fila_id(t0.vista(), id), p, ahora);
        &&& t1.vista() == t0.vista().update(indice_id(t0.vista(), id), nueva)
        &&& t1.siguiente_id == t0.siguiente_id
        &&& r matches Ok(resp) && (resp.success && resp.message@
            == "Alumno actualizado exitosamente"@ && (resp.data matches Some(a) && a.vista()
            == nueva))
    }
}

/// One page of students plus the count of everything the filters match,
/// newest first.
pub fn get_alumnos(tabla: &Tabla, params: &PaginationQuery) -> (r: AlumnosResponse)
    requires
        tabla.bien_formada(),
        tabla.vista().len() <= 0x7fff_ffff_ffff_ffff,
    ensures
        ({
            let c = params.vista();
            let f = sp_filtradas(tabla.vista(), c);
            let desde = min(sp_desplazamiento(c), f.len() as int);
            let hasta = min(sp_desplazamiento(c) + sp_limite(c.limit), f.len() as int);
            &&& r.success
            &&& r.message@ == "Alumnos obtenidos exitosamente"@
            &&& r.total as int == f.len()
            &&& vistas(r.data@) == f.subrange(desde, hasta)
        }),
{
    let (pagina, limite) = normalizar(params);
    let filtradas = filtrar(&tabla.filas, params);
    let total = filtradas.len();
    proof {
        lema_filtradas_len(tabla.vista(), params.vista());
        crate::tabla::lema_vistas(filtradas@);
        crate::tabla::lema_vistas(tabla.filas@);
    }
    let p64: i64 = pagina as i64;
    let l64: i64 = limite as i64;
    proof {
        assert(0 <= (p64 - 1) * l64 <= 0x31_ffff_ff9ci64) by (nonlinear_arith)
            requires
                1 <= p64 <= 0x7fff_ffffi64,
                1 <= l64 <= 100i64,
        ;
    }
    let desplazamiento: i64 = (p64 - 1) * l64;
    let desde: usize = if desplazamiento >= total as i64 {
        total
    } else {
        desplazamiento as usize
    };
    let tope: i64 = desplazamiento + l64;
    let hasta: usize = if tope >= total as i64 {
        total
    } else {
        tope as usize
    };
    let data = paginar(&filtradas, desde, hasta);
    AlumnosResponse {
        success: true,
        message: String::from_str("Alumnos obtenidos exitosamente"),
        data,
        total: total as i64,
    }
}

/// One student by identifier, or not-found.
pub fn get_alumno(tabla: &Tabla, id: i32) -> (r: Result<AlumnoResponse, (u16, ErrorResponse)>)
    requires
        tabla.bien_formada(),
    ensures
        existe_id(tabla.vista(), id as int) ==> (r matches Ok(resp) && (resp.success
            && resp.message@ == "Alumno encontrado"@ && (resp.data matches Some(a) && a.vista()
            == fila_id(tabla.vista(), id as int)))),
        !existe_id(tabla.vista(), id as int) ==> (r matches Err(e) && e.0 == CODIGO_NO_ENCONTRADO
            && sp_error(e.1, "Alumno no encontrado"@)),
{
    match tabla.buscar(id) {
        Some(a) => Ok(
            AlumnoResponse {
                success: true,
                message: String::from_str("Alumno encontrado"),
                data: Some(a),
            },
        ),
        None => Err(
            (
                CODIGO_NO_ENCONTRADO,
                ErrorResponse {
                    success: false,
                    message: String::from_str("Alumno no encontrado"),
                    errors: None,
                },
            ),
        ),
    }
}

/// Creates a student at the given instant; see `sp_post_crear`.
pub fn create_alumno_con_fecha(
    tabla: &mut Tabla,
    payload: CreateAlumnoRequest,
    ahora: i64,
) -> (r: Result<AlumnoResponse, (u16, ErrorResponse)>)
    requires
        old(tabla).bien_formada(),
        old(tabla).siguiente_id < i32::MAX,
    ensures
        final(tabla).bien_formada(),
        sp_post_crear(*old(tabla), *final(tabla), payload.vista(), ahora as int, r),
{
    let errores = validar_creacion(&payload);
    if errores.len() > 0 {
        return Err(
            (
                CODIGO_PETICION_INVALIDA,
                ErrorResponse {
                    success: false,
                    message: String::from_str("Datos de entrada inválidos"),
                    errors: Some(errores),
                },
            ),
        );
    }
    if tabla.email_ocupado(&payload.email) {
        return Err(
            (
                CODIGO_CONFLICTO,
                ErrorResponse {
                    success: false,
                    message: String::from_str("El email ya existe"),
                    errors: None,
                },
            ),
        );
    }
    let id = tabla.siguiente_id;
    tabla.siguiente_id = id + 1;
    let promedio = match payload.promedio {
        Some(p) => p,
        None => 0,
    };
    let fila = Alumno {
        id,
        nombre: payload.nombre,
        apellido: payload.apellido,
        email: payload.email,
        edad: payload.edad,
        carrera: payload.carrera,
        semestre: payload.semestre,
        promedio,
        activo: true,
        fecha_registro: ahora,
        fecha_actualizacion: ahora,
    };
    let copia = fila.clonar();
    proof {
        assert(!existe_id(tabla.vista(), fila.vista().id));
        assert(!existe_email(tabla.vista(), fila.vista().email));
    }
    tabla.insertar_ordenada(fila);
    Ok(
        AlumnoResponse {
            success: true,
            message: String::from_str("Alumno creado exitosamente"),
            data: Some(copia),
        },
    )
}

/// Creates a student, stamping both timestamps with the server clock.
pub fn create_alumno(tabla: &mut Tabla, payload: CreateAlumnoRequest) -> (r: Result<
    AlumnoResponse,
    (u16, ErrorResponse),
>)
    requires
        old(tabla).bien_formada(),
        old(tabla).siguiente_id < i32::MAX,
    ensures
        final(tabla).bien_formada(),
        exists|ahora: int|
            sp_post_crear(*old(tabla), *final(tabla), payload.vista(), ahora, r),
{
    let ahora = ahora_micros();
    let r = create_alumno_con_fecha(tabla, payload, ahora);
    proof {
        assert(sp_post_crear(*old(tabla), *tabla, payload.vista(), ahora as int, r));
    }
    r
}

/// Updates a student at the given instant; see `sp_post_actualizar`.
pub fn update_alumno_con_fecha(
    tabla: &mut Tabla,
    id: i32,
    payload: UpdateAlumnoRequest,
    ahora: i64,
) -> (r: Result<AlumnoResponse, (u16, ErrorResponse)>)
    requires
        old(tabla).bien_formada(),
    ensures
        final(tabla).bien_formada(),
        sp_post_actualizar(*old(tabla), *final(tabla), id as int, payload.vista(), ahora as int, r),
{
    let errores = validar_actualizacion(&payload);
    if errores.len() > 0 {
        return Err(
            (
                CODIGO_PETICION_INVALIDA,
                ErrorResponse {
                    success: false,
                    message: String::from_str("Datos de entrada inválidos"),
                    errors: Some(errores),
                },
            ),
        );
    }
    let vieja = match tabla.buscar(id) {
        Some(v) => v,
        None => {
            return Err(
                (
                    CODIGO_NO_ENCONTRADO,
                    ErrorResponse {
                        success: false,
                        message: String::from_str("Alumno no encontrado"),
                        errors: None,
                    },
                ),
            );
        },
    };
    if !payload.algun_campo() {
        return Err(
            (
                CODIGO_PETICION_INVALIDA,
                ErrorResponse {
                    success: false,
                    message: String::from_str("No hay campos para actualizar"),
                    errors: None,
                },
            ),
        );
    }
    match payload.email {
        Some(ref correo) => {
            if tabla.email_ocupado_por_otro(correo, id) {
                return Err(
                    (
                        CODIGO_CONFLICTO,
                        ErrorResponse {
                            success: false,
                            message: String::from_str("El email ya existe"),
                            errors: None,
                        },
                    ),
                );
            }
        },
        None => {},
    }
    let nueva = Alumno {
        id,
        nombre: match payload.nombre {
            Some(s) => s,
            None => vieja.nombre,
        },
        apellido: match payload.apellido {
            Some(s) => s,
            None => vieja.apellido,
        },
        email: match payload.email {
            Some(s) => s,
            None => vieja.email,
        },
        edad: match payload.edad {
            Some(n) => n,
            None => vieja.edad,
        },
        carrera: match payload.carrera {
            Some(s) => s,
            None => vieja.carrera,
        },
        semestre: match payload.semestre {
            Some(n) => n,
            None => vieja.semestre,
        },
        promedio: match payload.promedio {
            Some(n) => n,
            None => vieja.promedio,
        },
        activo: match payload.activo {
            Some(b) => b,
            None => vieja.activo,
        },
        fecha_registro: vieja.fecha_registro,
        fecha_actualizacion: ahora,
    };
    let copia = nueva.clonar();
    proof {
        let v = tabla.vista();
        let k = indice_id(v, id as int);
        assert(0 <= k < v.len() && v[k].id == id as int);
        if existe_email_ajeno(v, nueva.vista().email, id as int) {
            let j = choose|j: int|
                0 <= j < v.len() && (#[trigger] v[j]).email == nueva.vista().email && v[j].id
                    != id as int;
            assert(v[j].email == v[k].email);
            assert(false);
        }
    }
    tabla.reemplazar(id, nueva);
    Ok(
        AlumnoResponse {
            success: true,
            message: String::from_str("Alumno actualizado exitosamente"),
            data: Some(copia),
        },
    )
}

/// Updates a student, stamping the update timestamp with the server clock.
pub fn update_alumno(tabla: &mut Tabla, id: i32, payload: UpdateAlumnoRequest) -> (r: Result<
    AlumnoResponse,
    (u16, ErrorResponse),
>)
    requires
        old(tabla).bien_formada(),
    ensures
        final(tabla).bien_formada(),
        exists|ahora: int|
            sp_post_actualizar(*old(tabla), *final(tabla), id as int, payload.vista(), ahora, r),
{
    let ahora = ahora_micros();
    let r = update_alumno_con_fecha(tabla, id, payload, ahora);
    proof {
        assert(sp_post_actualizar(*old(tabla), *tabla, id as int, payload.vista(), ahora as int, r));
    }
    r
}

/// Deletes a student by identifier; not-found when no row held it. After the
/// call no row holds the identifier.
pub fn delete_alumno(tabla: &mut Tabla, id: i32) -> (r: Result<
    AlumnoResponse,
    (u16, ErrorResponse),
>)
    requires
        old(tabla).bien_formada(),
    ensures
        final(tabla).bien_formada(),
        existe_id(old(tabla).vista(), id as int) ==> (r matches Ok(resp) && (resp.success
            && resp.message@ == "Alumno eliminado exitosamente"@ && resp.data is None
            && final(tabla).vista() == old(tabla).vista().remove(
            indice_id(old(tabla).vista(), id as int),
        ))),
        !existe_id(old(tabla).vista(), id as int) ==> (r matches Err(e) && (e.0
            == CODIGO_NO_ENCONTRADO && sp_error(e.1, "Alumno no encontrado"@) && *final(tabla)
            == *old(tabla))),
        !existe_id(final(tabla).vista(), id as int),
        final(tabla).siguiente_id == old(tabla).siguiente_id,
{
    let habia = tabla.quitar(id);
    if habia {
        Ok(
            AlumnoResponse {
                success: true,
                message: String::from_str("Alumno eliminado exitosamente"),
                data: None,
            },
        )
    } else {
        Err(
            (
                CODIGO_NO_ENCONTRADO,
                ErrorResponse {
                    success: false,
                    message: String::from_str("Alumno no encontrado"),
                    errors: None,
                },
            ),
        )
    }
}

} // verus!
