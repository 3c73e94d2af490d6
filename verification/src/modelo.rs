//! The domain types of the service: the student row, the request bodies of
//! the create and update operations, the response envelopes, and the query
//! parameters of the listing endpoint. Each executable type has a ghost view
//! over mathematical values (`int`, `Seq<char>`), and the contracts of the
//! whole crate are stated over those views.
//!
//! Representation choices: timestamps are UTC microseconds since the Unix
//! epoch, held as `i64`; the grade average (`promedio`) is held in hundredths
//! of a grade point, so the valid range 0.0 to 10.0 becomes 0 to 1000.

use vstd::prelude::*;

verus! {

/// One row of the students table.
#[derive(Debug)]
pub struct Alumno {
    pub id: i32,
    pub nombre: String,
    pub apellido: String,
    pub email: String,
    pub edad: i32,
    pub carrera: String,
    pub semestre: i32,
    /// Grade average in hundredths (0 to 1000 stands for 0.00 to 10.00).
    pub promedio: u32,
    pub activo: bool,
    /// UTC microseconds since the epoch, set by the server on insert.
    pub fecha_registro: i64,
    /// UTC microseconds since the epoch, refreshed by the server on update.
    pub fecha_actualizacion: i64,
}

/// The mathematical value of a row.
pub ghost struct VistaAlumno {
    pub id: int,
    pub nombre: Seq<char>,
    pub apellido: Seq<char>,
    pub email: Seq<char>,
    pub edad: int,
    pub carrera: Seq<char>,
    pub semestre: int,
    pub promedio: int,
    pub activo: bool,
    pub fecha_registro: int,
    pub fecha_actualizacion: int,
}

impl Alumno {
    pub open spec fn vista(&self) -> VistaAlumno {
        VistaAlumno {
            id: self.id as int,
            nombre: self.nombre@,
            apellido: self.apellido@,
            email: self.email@,
            edad: self.edad as int,
            carrera: self.carrera@,
            semestre: self.semestre as int,
            promedio: self.promedio as int,
            activo: self.activo,
            fecha_registro: self.fecha_registro as int,
            fecha_actualizacion: self.fecha_actualizacion as int,
        }
    }

    /// A field-by-field copy; the copy has the same view as the original.
    pub fn clonar(&self) -> (r: Alumno)
        ensures
            r.vista() == self.vista(),
    {
        Alumno {
            id: self.id,
            nombre: clonar_texto(&self.nombre),
            apellido: clonar_texto(&self.apellido),
            email: clonar_texto(&self.email),
            edad: self.edad,
            carrera: clonar_texto(&self.carrera),
            semestre: self.semestre,
            promedio: self.promedio,
            activo: self.activo,
            fecha_registro: self.fecha_registro,
            fecha_actualizacion: self.fecha_actualizacion,
        }
    }
}

/// A copy of a string with the same view.
pub fn clonar_texto(s: &String) -> (r: String)
    ensures
        r@ == s@,
{
    String::from_str(s.as_str())
}

/// Body of the create operation: a full record minus the server-assigned
/// identifier, timestamps and active flag. `promedio` may be omitted and then
/// defaults to 0.
#[derive(Debug)]
pub struct CreateAlumnoRequest {
    pub nombre: String,
    pub apellido: String,
    pub email: String,
    pub edad: i32,
    pub carrera: String,
    pub semestre: i32,
    pub promedio: Option<u32>,
}

/// The mathematical value of a create request.
pub ghost struct VistaCreacion {
    pub nombre: Seq<char>,
    pub apellido: Seq<char>,
    pub email: Seq<char>,
    pub edad: int,
    pub carrera: Seq<char>,
    pub semestre: int,
    pub promedio: Option<int>,
}

impl CreateAlumnoRequest {
    pub open spec fn vista(&self) -> VistaCreacion {
        VistaCreacion {
            nombre: self.nombre@,
            apellido: self.apellido@,
            email: self.email@,
            edad: self.edad as int,
            carrera: self.carrera@,
            semestre: self.semestre as int,
            promedio: match self.promedio {
                Some(p) => Some(p as int),
                None => None,
            },
        }
    }
}

impl VistaCreacion {
    /// The grade average that the insert uses: the supplied one, or 0.
    pub open spec fn promedio_efectivo(&self) -> int {
        match self.promedio {
            Some(p) => p,
            None => 0,
        }
    }
}

/// Body of the update operation: any subset of the create fields, plus an
/// optional toggle of the active flag.
#[derive(Debug)]
pub struct UpdateAlumnoRequest {
    pub nombre: Option<String>,
    pub apellido: Option<String>,
    pub email: Option<String>,
    pub edad: Option<i32>,
    pub carrera: Option<String>,
    pub semestre: Option<i32>,
    pub promedio: Option<u32>,
    pub activo: Option<bool>,
}

/// The mathematical value of an update request.
pub ghost struct VistaActualizacion {
    pub nombre: Option<Seq<char>>,
    pub apellido: Option<Seq<char>>,
    pub email: Option<Seq<char>>,
    pub edad: Option<int>,
    pub carrera: Option<Seq<char>>,
    pub semestre: Option<int>,
    pub promedio: Option<int>,
    pub activo: Option<bool>,
}

impl UpdateAlumnoRequest {
    pub open spec fn vista(&self) -> VistaActualizacion {
        VistaActualizacion {
            nombre: match self.nombre {
                Some(ref s) => Some(s@),
                None => None,
            },
            apellido: match self.apellido {
                Some(ref s) => Some(s@),
                None => None,
            },
            email: match self.email {
                Some(ref s) => Some(s@),
                None => None,
            },
            edad: match self.edad {
                Some(n) => Some(n as int),
                None => None,
            },
            carrera: match self.carrera {
                Some(ref s) => Some(s@),
                None => None,
            },
            semestre: match self.semestre {
                Some(n) => Some(n as int),
                None => None,
            },
            promedio: match self.promedio {
                Some(n) => Some(n as int),
                None => None,
            },
            activo: self.activo,
        }
    }

    /// Whether at least one field (the active flag included) was supplied.
    pub fn algun_campo(&self) -> (r: bool)
        ensures
            r == !self.vista().sin_campos(),
    {
        self.nombre.is_some() || self.apellido.is_some() || self.email.is_some()
            || self.edad.is_some() || self.carrera.is_some() || self.semestre.is_some()
            || self.promedio.is_some() || self.activo.is_some()
    }
}

impl VistaActualizacion {
    /// True when the request supplies nothing at all.
    pub open spec fn sin_campos(&self) -> bool {
        self.nombre is None && self.apellido is None && self.email is None
            && self.edad is None && self.carrera is None && self.semestre is None
            && self.promedio is None && self.activo is None
    }
}

/// Envelope of the operations that return at most one record.
#[derive(Debug)]
pub struct AlumnoResponse {
    pub success: bool,
    pub message: String,
    pub data: Option<Alumno>,
}

/// Envelope of the listing operation: one page of records plus the total
/// count of records matching the same filters.
#[derive(Debug)]
pub struct AlumnosResponse {
    pub success: bool,
    pub message: String,
    pub data: Vec<Alumno>,
    pub total: i64,
}

/// Envelope of every failure: a message and, for validation failures, the
/// list of per-field messages.
#[derive(Debug)]
pub struct ErrorResponse {
    pub success: bool,
    pub message: String,
    pub errors: Option<Vec<String>>,
}

/// Query parameters of the listing endpoint.
#[derive(Debug)]
pub struct PaginationQuery {
    pub page: Option<i32>,
    pub limit: Option<i32>,
    pub search: Option<String>,
    pub carrera: Option<String>,
    pub activo: Option<bool>,
}

/// The mathematical value of the listing parameters.
pub ghost struct VistaConsulta {
    pub page: Option<int>,
    pub limit: Option<int>,
    pub search: Option<Seq<char>>,
    pub carrera: Option<Seq<char>>,
    pub activo: Option<bool>,
}

impl PaginationQuery {
    pub open spec fn vista(&self) -> VistaConsulta {
        VistaConsulta {
            page: match self.page {
                Some(n) => Some(n as int),
                None => None,
            },
            limit: match self.limit {
                Some(n) => Some(n as int),
                None => None,
            },
            search: match self.search {
                Some(ref s) => Some(s@),
                None => None,
            },
            carrera: match self.carrera {
                Some(ref s) => Some(s@),
                None => None,
            },
            activo: self.activo,
        }
    }
}

/// HTTP status of a rejected request body.
pub const CODIGO_PETICION_INVALIDA: u16 = 400;

/// HTTP status of an identifier that matches no row.
pub const CODIGO_NO_ENCONTRADO: u16 = 404;

/// HTTP status of an email that another row already holds.
pub const CODIGO_CONFLICTO: u16 = 409;

/// HTTP status of a storage failure.
pub const CODIGO_ERROR_INTERNO: u16 = 500;

} // verus!
