//! Field validation of the create and update request bodies. Each constraint
//! is a spec predicate; the validators return the exact list of per-field
//! messages, in field order, and an empty list exactly on valid input.

use vstd::prelude::*;
use crate::modelo::CreateAlumnoRequest;
use crate::modelo::UpdateAlumnoRequest;
use crate::modelo::VistaActualizacion;
use crate::modelo::VistaCreacion;

verus! {

/// What `validator::ValidateEmail::validate_email` returns for a given
/// sequence of characters (the HTML5 e-mail shape; a function of the
/// characters alone).
pub uninterp spec fn es_email(s: Seq<char>) -> bool;

/// Relies on `validator`'s `ValidateEmail::validate_email` for `String`: the
/// HTML5 e-mail check, a pure function of the characters of its argument.
#[verifier::external_body]
pub(crate) fn email_valido(s: &String) -> (r: bool)
    ensures
        r == es_email(s@),
{
    validator::ValidateEmail::validate_email(s)
}

/// First and last names must hold between 2 and 100 characters.
pub open spec fn nombre_valido(s: Seq<char>) -> bool {
    2 <= s.len() <= 100
}

/// The programme name must hold between 5 and 100 characters.
pub open spec fn carrera_valida(s: Seq<char>) -> bool {
    5 <= s.len() <= 100
}

/// Age must lie between 16 and 65.
pub open spec fn edad_valida(n: int) -> bool {
    16 <= n <= 65
}

/// Term number must lie between 1 and 10.
pub open spec fn semestre_valido(n: int) -> bool {
    1 <= n <= 10
}

/// Grade average, in hundredths, must lie between 0 and 1000 (0.0 to 10.0).
pub open spec fn promedio_valido(n: int) -> bool {
    0 <= n <= 1000
}

/// A create request is valid when every field passes its constraint; an
/// absent grade average is valid.
pub open spec fn creacion_valida(v: VistaCreacion) -> bool {
    &&& nombre_valido(v.nombre)
    &&& nombre_valido(v.apellido)
    &&& es_email(v.email)
    &&& edad_valida(v.edad)
    &&& carrera_valida(v.carrera)
    &&& semestre_valido(v.semestre)
    &&& (v.promedio is None || promedio_valido(v.promedio->0))
}

/// An update request is valid when every supplied field passes its
/// constraint; absent fields are not checked.
pub open spec fn actualizacion_valida(v: VistaActualizacion) -> bool {
    &&& (v.nombre is None || nombre_valido(v.nombre->0))
    &&& (v.apellido is None || nombre_valido(v.apellido->0))
    &&& (v.email is None || es_email(v.email->0))
    &&& (v.edad is None || edad_valida(v.edad->0))
    &&& (v.carrera is None || carrera_valida(v.carrera->0))
    &&& (v.semestre is None || semestre_valido(v.semestre->0))
    &&& (v.promedio is None || promedio_valido(v.promedio->0))
}

/// Appends `mensaje` to the list when the constraint failed.
pub open spec fn con_error(previos: Seq<Seq<char>>, fallo: bool, mensaje: Seq<char>) -> Seq<
    Seq<char>,
> {
    if fallo {
        previos.push(mensaje)
    } else {
        previos
    }
}

/// The message list of an invalid create request, in field order.
pub open spec fn errores_creacion(v: VistaCreacion) -> Seq<Seq<char>> {
    con_error(
        con_error(
            con_error(
                con_error(
                    con_error(
                        con_error(
                            con_error(
                                Seq::empty(),
                                !nombre_valido(v.nombre),
                                "Nombre debe tener entre 2 y 100 caracteres"@,
                            ),
                            !nombre_valido(v.apellido),
                            "Apellido debe tener entre 2 y 100 caracteres"@,
                        ),
                        !es_email(v.email),
                        "Email inválido"@,
                    ),
                    !edad_valida(v.edad),
                    "Edad debe estar entre 16 y 65 años"@,
                ),
                !carrera_valida(v.carrera),
                "Carrera debe tener entre 5 y 100 caracteres"@,
            ),
            !semestre_valido(v.semestre),
            "Semestre debe estar entre 1 y 10"@,
        ),
        !(v.promedio is None || promedio_valido(v.promedio->0)),
        "Promedio debe estar entre 0.0 y 10.0"@,
    )
}

/// The message list of an invalid update request, in field order.
pub open spec fn errores_actualizacion(v: VistaActualizacion) -> Seq<Seq<char>> {
    con_error(
        con_error(
            con_error(
                con_error(
                    con_error(
                        con_error(
                            con_error(
                                Seq::empty(),
                                !(v.nombre is None || nombre_valido(v.nombre->0)),
                                "Nombre debe tener entre 2 y 100 caracteres"@,
                            ),
                            !(v.apellido is None || nombre_valido(v.apellido->0)),
                            "Apellido debe tener entre 2 y 100 caracteres"@,
                        ),
                        !(v.email is None || es_email(v.email->0)),
                        "Email inválido"@,
                    ),
                    !(v.edad is None || edad_valida(v.edad->0)),
                    "Edad debe estar entre 16 y 65 años"@,
                ),
                !(v.carrera is None || carrera_valida(v.carrera->0)),
                "Carrera debe tener entre 5 y 100 caracteres"@,
            ),
            !(v.semestre is None || semestre_valido(v.semestre->0)),
            "Semestre debe estar entre 1 y 10"@,
        ),
        !(v.promedio is None || promedio_valido(v.promedio->0)),
        "Promedio debe estar entre 0.0 y 10.0"@,
    )
}

/// Validate a create request: the result holds exactly the messages of the
/// failing constraints, in field order, and is empty exactly on valid input.
pub fn validar_creacion(req: &CreateAlumnoRequest) -> (r: Vec<String>)
    ensures
        r.deep_view() == errores_creacion(req.vista()),
        r@.len() == 0 <==> creacion_valida(req.vista()),
{
    let ghost v = req.vista();
    let ghost mut esperado: Seq<Seq<char>> = Seq::empty();
    let mut errores: Vec<String> = Vec::new();
    let largo_nombre = req.nombre.as_str().unicode_len();
    if largo_nombre < 2 || largo_nombre > 100 {
        errores.push(String::from_str("Nombre debe tener entre 2 y 100 caracteres"));
    }
    proof {
        esperado = con_error(
            esperado,
            !nombre_valido(v.nombre),
            "Nombre debe tener entre 2 y 100 caracteres"@,
        );
        assert(errores.deep_view() =~~= esperado);
    }
    let largo_apellido = req.apellido.as_str().unicode_len();
    if largo_apellido < 2 || largo_apellido > 100 {
        errores.push(String::from_str("Apellido debe tener entre 2 y 100 caracteres"));
    }
    proof {
        esperado = con_error(
            esperado,
            !nombre_valido(v.apellido),
            "Apellido debe tener entre 2 y 100 caracteres"@,
        );
        assert(errores.deep_view() =~~= esperado);
    }
    if !email_valido(&req.email) {
        errores.push(String::from_str("Email inválido"));
    }
    proof {
        esperado = con_error(esperado, !es_email(v.email), "Email inválido"@);
        assert(errores.deep_view() =~~= esperado);
    }
    if req.edad < 16 || req.edad > 65 {
        errores.push(String::from_str("Edad debe estar entre 16 y 65 años"));
    }
    proof {
        esperado = con_error(esperado, !edad_valida(v.edad), "Edad debe estar entre 16 y 65 años"@);
        assert(errores.deep_view() =~~= esperado);
    }
    let largo_carrera = req.carrera.as_str().unicode_len();
    if largo_carrera < 5 || largo_carrera > 100 {
        errores.push(String::from_str("Carrera debe tener entre 5 y 100 caracteres"));
    }
    proof {
        esperado = con_error(
            esperado,
            !carrera_valida(v.carrera),
            "Carrera debe tener entre 5 y 100 caracteres"@,
        );
        assert(errores.deep_view() =~~= esperado);
    }
    if req.semestre < 1 || req.semestre > 10 {
        errores.push(String::from_str("Semestre debe estar entre 1 y 10"));
    }
    proof {
        esperado = con_error(
            esperado,
            !semestre_valido(v.semestre),
            "Semestre debe estar entre 1 y 10"@,
        );
        assert(errores.deep_view() =~~= esperado);
    }
    match req.promedio {
        Some(p) => {
            if p > 1000 {
                errores.push(String::from_str("Promedio debe estar entre 0.0 y 10.0"));
            }
        },
        None => {},
    }
    proof {
        esperado = con_error(
            esperado,
            !(v.promedio is None || promedio_valido(v.promedio->0)),
            "Promedio debe estar entre 0.0 y 10.0"@,
        );
        assert(errores.deep_view() =~~= esperado);
        assert(esperado == errores_creacion(v));
    }
    errores
}

/// Validate an update request: the result holds exactly the messages of the
/// failing constraints among the supplied fields, in field order, and is
/// empty exactly on valid input.
pub fn validar_actualizacion(req: &UpdateAlumnoRequest) -> (r: Vec<String>)
    ensures
        r.deep_view() == errores_actualizacion(req.vista()),
        r@.len() == 0 <==> actualizacion_valida(req.vista()),
{
    let ghost v = req.vista();
    let ghost mut esperado: Seq<Seq<char>> = Seq::empty();
    let mut errores: Vec<String> = Vec::new();
    match req.nombre {
        Some(ref s) => {
            let largo = s.as_str().unicode_len();
            if largo < 2 || largo > 100 {
                errores.push(String::from_str("Nombre debe tener entre 2 y 100 caracteres"));
            }
        },
        None => {},
    }
    proof {
        esperado = con_error(
            esperado,
            !(v.nombre is None || nombre_valido(v.nombre->0)),
            "Nombre debe tener entre 2 y 100 caracteres"@,
        );
        assert(errores.deep_view() =~~= esperado);
    }
    match req.apellido {
        Some(ref s) => {
            let largo = s.as_str().unicode_len();
            if largo < 2 || largo > 100 {
                errores.push(String::from_str("Apellido debe tener entre 2 y 100 caracteres"));
            }
        },
        None => {},
    }
    proof {
        esperado = con_error(
            esperado,
            !(v.apellido is None || nombre_valido(v.apellido->0)),
            "Apellido debe tener entre 2 y 100 caracteres"@,
        );
        assert(errores.deep_view() =~~= esperado);
    }
    match req.email {
        Some(ref s) => {
            if !email_valido(s) {
                errores.push(String::from_str("Email inválido"));
            }
        },
        None => {},
    }
    proof {
        esperado = con_error(
            esperado,
            !(v.email is None || es_email(v.email->0)),
            "Email inválido"@,
        );
        assert(errores.deep_view() =~~= esperado);
    }
    match req.edad {
        Some(n) => {
            if n < 16 || n > 65 {
                errores.push(String::from_str("Edad debe estar entre 16 y 65 años"));
            }
        },
        None => {},
    }
    proof {
        esperado = con_error(
            esperado,
            !(v.edad is None || edad_valida(v.edad->0)),
            "Edad debe estar entre 16 y 65 años"@,
        );
        assert(errores.deep_view() =~~= esperado);
    }
    match req.carrera {
        Some(ref s) => {
            let largo = s.as_str().unicode_len();
            if largo < 5 || largo > 100 {
                errores.push(String::from_str("Carrera debe tener entre 5 y 100 caracteres"));
            }
        },
        None => {},
    }
    proof {
        esperado = con_error(
            esperado,
            !(v.carrera is None || carrera_valida(v.carrera->0)),
            "Carrera debe tener entre 5 y 100 caracteres"@,
        );
        assert(errores.deep_view() =~~= esperado);
    }
    match req.semestre {
        Some(n) => {
            if n < 1 || n > 10 {
                errores.push(String::from_str("Semestre debe estar entre 1 y 10"));
            }
        },
        None => {},
    }
    proof {
        esperado = con_error(
            esperado,
            !(v.semestre is None || semestre_valido(v.semestre->0)),
            "Semestre debe estar entre 1 y 10"@,
        );
        assert(errores.deep_view() =~~= esperado);
    }
    match req.promedio {
        Some(p) => {
            if p > 1000 {
                errores.push(String::from_str("Promedio debe estar entre 0.0 y 10.0"));
            }
        },
        None => {},
    }
    proof {
        esperado = con_error(
            esperado,
            !(v.promedio is None || promedio_valido(v.promedio->0)),
            "Promedio debe estar entre 0.0 y 10.0"@,
        );
        assert(errores.deep_view() =~~= esperado);
        assert(esperado == errores_actualizacion(v));
    }
    errores
}

} // verus!
