//! The SQL that a database client runs, built here with bound-parameter
//! placeholders and specified to the character: the filtered, paginated
//! listing and its count query, the insert, the dynamic partial-update SET
//! clause, the single-row select, and the delete. Values never ride inside
//! the SQL text; they travel in an ordered parameter list.
//!
//! The outcome of running a statement is modelled by `ResultadoSql`, and the
//! functions that decide a response from an outcome are verified here too.

use vstd::prelude::*;
use crate::listado::sp_desplazamiento;
use crate::listado::sp_limite;
use crate::listado::normalizar;
use crate::modelo::clonar_texto;
use crate::modelo::AlumnoResponse;
use crate::modelo::CreateAlumnoRequest;
use crate::modelo::ErrorResponse;
use crate::modelo::PaginationQuery;
use crate::modelo::UpdateAlumnoRequest;
use crate::modelo::VistaActualizacion;
use crate::modelo::VistaConsulta;
use crate::modelo::CODIGO_CONFLICTO;
use crate::modelo::CODIGO_ERROR_INTERNO;
use crate::modelo::CODIGO_NO_ENCONTRADO;

verus! {

/// One bound parameter of a statement, in binding order.
#[derive(Debug)]
pub enum Param {
    /// A string column or pattern.
    Texto(String),
    /// An integer column, identifier, timestamp, limit or offset.
    Entero(i64),
    /// A boolean column.
    Logico(bool),
    /// The grade average, in hundredths; bound as a numeric column.
    Promedio(u32),
}

/// The mathematical value of a parameter.
pub ghost enum VistaParam {
    Texto(Seq<char>),
    Entero(int),
    Logico(bool),
    Promedio(int),
}

impl Param {
    pub open spec fn vista(&self) -> VistaParam {
        match self {
            Param::Texto(s) => VistaParam::Texto(s@),
            Param::Entero(n) => VistaParam::Entero(*n as int),
            Param::Logico(b) => VistaParam::Logico(*b),
            Param::Promedio(p) => VistaParam::Promedio(*p as int),
        }
    }
}

/// The views of a parameter list, in order.
pub open spec fn vistas_params(ps: Seq<Param>) -> Seq<VistaParam> {
    ps.map_values(|p: Param| p.vista())
}

/// `vistas_params` indexes to the views of the parameters.
pub proof fn lema_vistas_params(ps: Seq<Param>)
    ensures
        vistas_params(ps).len() == ps.len(),
        forall|j: int|
            0 <= j < ps.len() ==> #[trigger] vistas_params(ps)[j] == ps[j].vista(),
{
}

/// The conditions that the supplied filters append to both listing queries.
pub open spec fn sp_condiciones(c: VistaConsulta) -> Seq<char> {
    (if c.search is Some {
        " AND (nombre LIKE ? OR apellido LIKE ?)"@
    } else {
        Seq::<char>::empty()
    }) + (if c.carrera is Some {
        " AND carrera = ?"@
    } else {
        Seq::<char>::empty()
    }) + (if c.activo is Some {
        " AND activo = ?"@
    } else {
        Seq::<char>::empty()
    })
}

/// The text of the listing query.
pub open spec fn sp_sql_listado(c: VistaConsulta) -> Seq<char> {
    "SELECT * FROM alumnos WHERE 1=1"@ + sp_condiciones(c)
        + " ORDER BY fecha_registro DESC, id DESC LIMIT ? OFFSET ?"@
}

/// The text of the count query over the same filters.
pub open spec fn sp_sql_conteo(c: VistaConsulta) -> Seq<char> {
    "SELECT COUNT(*) as total FROM alumnos WHERE 1=1"@ + sp_condiciones(c)
}

/// The parameters that the supplied filters bind, in order: the search
/// pattern twice, the programme, the active flag.
pub open spec fn sp_params_filtro(c: VistaConsulta) -> Seq<VistaParam> {
    (match c.search {
        Some(b) => seq![
            VistaParam::Texto("%"@ + b + "%"@),
            VistaParam::Texto("%"@ + b + "%"@),
        ],
        None => Seq::<VistaParam>::empty(),
    }) + (match c.carrera {
        Some(ca) => seq![VistaParam::Texto(ca)],
        None => Seq::<VistaParam>::empty(),
    }) + (match c.activo {
        Some(x) => seq![VistaParam::Logico(x)],
        None => Seq::<VistaParam>::empty(),
    })
}

/// The parameters of the listing query: the filters, then the page size and
/// the offset.
pub open spec fn sp_params_listado(c: VistaConsulta) -> Seq<VistaParam> {
    sp_params_filtro(c) + seq![
        VistaParam::Entero(sp_limite(c.limit)),
        VistaParam::Entero(sp_desplazamiento(c)),
    ]
}

/// The two listing statements and their parameter lists.
pub struct ConsultaListado {
    pub sql: String,
    pub parametros: Vec<Param>,
    pub sql_conteo: String,
    pub parametros_conteo: Vec<Param>,
}

/// Builds the listing query and its count query from the request: bound
/// placeholders for every supplied filter, newest rows first, and the
/// normalised page cut.
pub fn consulta_listado(params: &PaginationQuery) -> (r: ConsultaListado)
    ensures
        r.sql@ == sp_sql_listado(params.vista()),
        r.sql_conteo@ == sp_sql_conteo(params.vista()),
        vistas_params(r.parametros@) == sp_params_listado(params.vista()),
        vistas_params(r.parametros_conteo@) == sp_params_filtro(params.vista()),
{
    let ghost c = params.vista();
    let mut condiciones = String::new();
    let mut filtros: Vec<Param> = Vec::new();
    match params.search {
        Some(ref b) => {
            condiciones.append(" AND (nombre LIKE ? OR apellido LIKE ?)");
            let patron = String::from_str("%").concat(b.as_str()).concat("%");
            let patron2 = clonar_texto(&patron);
            filtros.push(Param::Texto(patron));
            filtros.push(Param::Texto(patron2));
        },
        None => {},
    }
    match params.carrera {
        Some(ref ca) => {
            condiciones.append(" AND carrera = ?");
            filtros.push(Param::Texto(clonar_texto(ca)));
        },
        None => {},
    }
    match params.activo {
        Some(x) => {
            condiciones.append(" AND activo = ?");
            filtros.push(Param::Logico(x));
        },
        None => {},
    }
    proof {
        assert(condiciones@ =~= sp_condiciones(c));
        lema_vistas_params(filtros@);
        assert(vistas_params(filtros@) =~= sp_params_filtro(c));
    }
    let (pagina, limite) = normalizar(params);
    let p64: i64 = pagina as i64;
    let l64: i64 = limite as i64;
    proof {
        assert(0 <= (p64 - 1) * l64 <= 0x31_ffff_ff9ci64) by (nonlinear_arith)
            requires
                1 <= p64 <= 0x7fff_ffffi64,
                1 <= l64 <= 100i64,
        ;
    }
    let desplazamiento: i64 = (p64 - 1) * l64;
    let mut sql = String::from_str("SELECT * FROM alumnos WHERE 1=1");
    sql.append(condiciones.as_str());
    sql.append(" ORDER BY fecha_registro DESC, id DESC LIMIT ? OFFSET ?");
    let mut sql_conteo = String::from_str("SELECT COUNT(*) as total FROM alumnos WHERE 1=1");
    sql_conteo.append(condiciones.as_str());
    let ghost filtros_antes = filtros@;
    let mut parametros_conteo: Vec<Param> = Vec::new();
    let mut i: usize = 0;
    while i < filtros.len()
        invariant
            i <= filtros.len(),
            filtros@ == filtros_antes,
            parametros_conteo@.len() == i,
            forall|j: int|
                0 <= j < i ==> (#[trigger] parametros_conteo@[j]).vista() == filtros@[j].vista(),
        decreases filtros.len() - i,
    {
        let copia = match &filtros[i] {
            Param::Texto(s) => Param::Texto(clonar_texto(s)),
            Param::Entero(n) => Param::Entero(*n),
            Param::Logico(b) => Param::Logico(*b),
            Param::Promedio(p) => Param::Promedio(*p),
        };
        parametros_conteo.push(copia);
        i += 1;
    }
    let mut parametros = filtros;
    parametros.push(Param::Entero(l64));
    parametros.push(Param::Entero(desplazamiento));
    proof {
        lema_vistas_params(parametros@);
        lema_vistas_params(parametros_conteo@);
        lema_vistas_params(filtros_antes);
        assert(vistas_params(parametros@) =~= sp_params_listado(c));
        assert(vistas_params(parametros_conteo@) =~= sp_params_filtro(c));
    }
    ConsultaListado { sql, parametros, sql_conteo, parametros_conteo }
}

/// The text of the insert: every column the server sets, as placeholders.
pub open spec fn sp_sql_insercion() -> Seq<char> {
    "INSERT INTO alumnos (nombre, apellido, email, edad, carrera, semestre, promedio, activo, fecha_registro, fecha_actualizacion) VALUES (?, ?, ?, ?, ?, ?, ?, ?, ?, ?)"@
}

/// The parameters of the insert, in column order: the request fields, the
/// defaulted grade average, `activo` true, and the instant twice.
pub open spec fn sp_params_insercion(req: crate::modelo::VistaCreacion, ahora: int) -> Seq<
    VistaParam,
> {
    seq![
        VistaParam::Texto(req.nombre),
        VistaParam::Texto(req.apellido),
        VistaParam::Texto(req.email),
        VistaParam::Entero(req.edad),
        VistaParam::Texto(req.carrera),
        VistaParam::Entero(req.semestre),
        VistaParam::Promedio(req.promedio_efectivo()),
        VistaParam::Logico(true),
        VistaParam::Entero(ahora),
        VistaParam::Entero(ahora),
    ]
}

/// Builds the insert for a create request at the given instant.
pub fn consulta_insercion(payload: &CreateAlumnoRequest, ahora: i64) -> (r: (String, Vec<Param>))
    ensures
        r.0@ == sp_sql_insercion(),
        vistas_params(r.1@) == sp_params_insercion(payload.vista(), ahora as int),
{
    let sql = String::from_str(
        "INSERT INTO alumnos (nombre, apellido, email, edad, carrera, semestre, promedio, activo, fecha_registro, fecha_actualizacion) VALUES (?, ?, ?, ?, ?, ?, ?, ?, ?, ?)",
    );
    let promedio = match payload.promedio {
        Some(p) => p,
        None => 0,
    };
    let mut parametros: Vec<Param> = Vec::new();
    parametros.push(Param::Texto(clonar_texto(&payload.nombre)));
    parametros.push(Param::Texto(clonar_texto(&payload.apellido)));
    parametros.push(Param::Texto(clonar_texto(&payload.email)));
    parametros.push(Param::Entero(payload.edad as i64));
    parametros.push(Param::Texto(clonar_texto(&payload.carrera)));
    parametros.push(Param::Entero(payload.semestre as i64));
    parametros.push(Param::Promedio(promedio));
    parametros.push(Param::Logico(true));
    parametros.push(Param::Entero(ahora));
    parametros.push(Param::Entero(ahora));
    proof {
        lema_vistas_params(parametros@);
        assert(vistas_params(parametros@) =~= sp_params_insercion(payload.vista(), ahora as int));
    }
    (sql, parametros)
}

/// One step of the SET clause: when the column was supplied, a comma (after
/// a first column) and its `columna = ?` text; otherwise nothing.
pub open spec fn con_columna(acc: (Seq<char>, bool), presente: bool, columna: Seq<char>) -> (
    Seq<char>,
    bool,
) {
    if presente {
        (
            acc.0 + (if acc.1 {
                ", "@
            } else {
                Seq::<char>::empty()
            }) + columna,
            true,
        )
    } else {
        acc
    }
}

/// The text of the partial update: only the supplied columns, then the
/// update timestamp, then the keyed row.
pub open spec fn sp_sql_actualizacion(p: VistaActualizacion) -> Seq<char> {
    let acc = con_columna(
        con_columna(
            con_columna(
                con_columna(
                    con_columna(
                        con_columna(
                            con_columna(
                                con_columna(
                                    ("UPDATE alumnos SET "@, false),
                                    p.nombre is Some,
                                    "nombre = ?"@,
                                ),
                                p.apellido is Some,
                                "apellido = ?"@,
                            ),
                            p.email is Some,
                            "email = ?"@,
                        ),
                        p.edad is Some,
                        "edad = ?"@,
                    ),
                    p.carrera is Some,
                    "carrera = ?"@,
                ),
                p.semestre is Some,
                "semestre = ?"@,
            ),
            p.promedio is Some,
            "promedio = ?"@,
        ),
        p.activo is Some,
        "activo = ?"@,
    );
    acc.0 + (if acc.1 {
        ", "@
    } else {
        Seq::<char>::empty()
    }) + "fecha_actualizacion = ? WHERE id = ?"@
}

/// The parameters of the partial update, in clause order: each supplied
/// value, then the instant, then the identifier.
pub open spec fn sp_params_actualizacion(p: VistaActualizacion, ahora: int, id: int) -> Seq<
    VistaParam,
> {
    Seq::<VistaParam>::empty() + (match p.nombre {
        Some(s) => seq![VistaParam::Texto(s)],
        None => Seq::<VistaParam>::empty(),
    }) + (match p.apellido {
        Some(s) => seq![VistaParam::Texto(s)],
        None => Seq::<VistaParam>::empty(),
    }) + (match p.email {
        Some(s) => seq![VistaParam::Texto(s)],
        None => Seq::<VistaParam>::empty(),
    }) + (match p.edad {
        Some(n) => seq![VistaParam::Entero(n)],
        None => Seq::<VistaParam>::empty(),
    }) + (match p.carrera {
        Some(s) => seq![VistaParam::Texto(s)],
        None => Seq::<VistaParam>::empty(),
    }) + (match p.semestre {
        Some(n) => seq![VistaParam::Entero(n)],
        None => Seq::<VistaParam>::empty(),
    }) + (match p.promedio {
        Some(n) => seq![VistaParam::Promedio(n)],
        None => Seq::<VistaParam>::empty(),
    }) + (match p.activo {
        Some(b) => seq![VistaParam::Logico(b)],
        None => Seq::<VistaParam>::empty(),
    }) + seq![VistaParam::Entero(ahora)] + seq![VistaParam::Entero(id)]
}

/// Pushing one parameter appends its view.
proof fn lema_empuja_param(ps: Seq<Param>, p: Param)
    ensures
        vistas_params(ps.push(p)) == vistas_params(ps) + seq![p.vista()],
{
    assert(vistas_params(ps.push(p)) =~= vistas_params(ps) + seq![p.vista()]);
}

/// One step of building the SET clause: appends the column text (with its
/// separator) and binds the value when one was supplied.
fn agrega_columna(
    sql: &mut String,
    hay: &mut bool,
    parametros: &mut Vec<Param>,
    columna: &str,
    valor: Option<Param>,
)
    ensures
        (final(sql)@, *final(hay)) == con_columna((old(sql)@, *old(hay)), valor is Some, columna@),
        vistas_params(final(parametros)@) == vistas_params(old(parametros)@) + (match valor {
            Some(p) => seq![p.vista()],
            None => Seq::<VistaParam>::empty(),
        }),
{
    let r = match valor {
        Some(p) => {
            if *hay {
                sql.append(", ");
            }
            sql.append(columna);
            *hay = true;
            proof {
                lema_empuja_param(parametros@, p);
            }
            parametros.push(p);
            proof {
                assert(sql@ =~= (con_columna((old(sql)@, *old(hay)), true, columna@)).0);
            }
        },
        None => {
            proof {
                assert(vistas_params(parametros@) + Seq::<VistaParam>::empty() =~= vistas_params(
                    parametros@,
                ));
            }
        },
    };
    r
}

/// Builds the partial update for the supplied fields at the given instant,
/// or nothing when no field was supplied.
pub fn consulta_actualizacion(id: i32, payload: &UpdateAlumnoRequest, ahora: i64) -> (r: Option<
    (String, Vec<Param>),
>)
    ensures
        (r is Some) == !payload.vista().sin_campos(),
        r matches Some(t) ==> t.0@ == sp_sql_actualizacion(payload.vista()) && vistas_params(t.1@)
            == sp_params_actualizacion(payload.vista(), ahora as int, id as int),
{
    if !payload.algun_campo() {
        return None;
    }
    let ghost p = payload.vista();
    let mut sql = String::from_str("UPDATE alumnos SET ");
    let mut hay: bool = false;
    let mut parametros: Vec<Param> = Vec::new();
    let ghost mut acc: (Seq<char>, bool) = (sql@, false);
    let ghost mut esperados: Seq<VistaParam> = vistas_params(parametros@);
    proof {
        assert(esperados =~= Seq::<VistaParam>::empty());
    }
    agrega_columna(
        &mut sql,
        &mut hay,
        &mut parametros,
        "nombre = ?",
        match payload.nombre {
            Some(ref s) => Some(Param::Texto(clonar_texto(s))),
            None => None,
        },
    );
    proof {
        acc = con_columna(acc, p.nombre is Some, "nombre = ?"@);
        esperados = esperados + (match p.nombre {
            Some(x) => seq![VistaParam::Texto(x)],
            None => Seq::<VistaParam>::empty(),
        });
    }
    agrega_columna(
        &mut sql,
        &mut hay,
        &mut parametros,
        "apellido = ?",
        match payload.apellido {
            Some(ref s) => Some(Param::Texto(clonar_texto(s))),
            None => None,
        },
    );
    proof {
        acc = con_columna(acc, p.apellido is Some, "apellido = ?"@);
        esperados = esperados + (match p.apellido {
            Some(x) => seq![VistaParam::Texto(x)],
            None => Seq::<VistaParam>::empty(),
        });
    }
    agrega_columna(
        &mut sql,
        &mut hay,
        &mut parametros,
        "email = ?",
        match payload.email {
            Some(ref s) => Some(Param::Texto(clonar_texto(s))),
            None => None,
        },
    );
    proof {
        acc = con_columna(acc, p.email is Some, "email = ?"@);
        esperados = esperados + (match p.email {
            Some(x) => seq![VistaParam::Texto(x)],
            None => Seq::<VistaParam>::empty(),
        });
    }
    agrega_columna(
        &mut sql,
        &mut hay,
        &mut parametros,
        "edad = ?",
        match payload.edad {
            Some(n) => Some(Param::Entero(n as i64)),
            None => None,
        },
    );
    proof {
        acc = con_columna(acc, p.edad is Some, "edad = ?"@);
        esperados = esperados + (match p.edad {
            Some(x) => seq![VistaParam::Entero(x)],
            None => Seq::<VistaParam>::empty(),
        });
    }
    agrega_columna(
        &mut sql,
        &mut hay,
        &mut parametros,
        "carrera = ?",
        match payload.carrera {
            Some(ref s) => Some(Param::Texto(clonar_texto(s))),
            None => None,
        },
    );
    proof {
        acc = con_columna(acc, p.carrera is Some, "carrera = ?"@);
        esperados = esperados + (match p.carrera {
            Some(x) => seq![VistaParam::Texto(x)],
            None => Seq::<VistaParam>::empty(),
        });
    }
    agrega_columna(
        &mut sql,
        &mut hay,
        &mut parametros,
        "semestre = ?",
        match payload.semestre {
            Some(n) => Some(Param::Entero(n as i64)),
            None => None,
        },
    );
    proof {
        acc = con_columna(acc, p.semestre is Some, "semestre = ?"@);
        esperados = esperados + (match p.semestre {
            Some(x) => seq![VistaParam::Entero(x)],
            None => Seq::<VistaParam>::empty(),
        });
    }
    agrega_columna(
        &mut sql,
        &mut hay,
        &mut parametros,
        "promedio = ?",
        match payload.promedio {
            Some(n) => Some(Param::Promedio(n)),
            None => None,
        },
    );
    proof {
        acc = con_columna(acc, p.promedio is Some, "promedio = ?"@);
        esperados = esperados + (match p.promedio {
            Some(x) => seq![VistaParam::Promedio(x)],
            None => Seq::<VistaParam>::empty(),
        });
    }
    agrega_columna(
        &mut sql,
        &mut hay,
        &mut parametros,
        "activo = ?",
        match payload.activo {
            Some(b) => Some(Param::Logico(b)),
            None => None,
        },
    );
    proof {
        acc = con_columna(acc, p.activo is Some, "activo = ?"@);
        esperados = esperados + (match p.activo {
            Some(x) => seq![VistaParam::Logico(x)],
            None => Seq::<VistaParam>::empty(),
        });
    }
    if hay {
        sql.append(", ");
    }
    sql.append("fecha_actualizacion = ? WHERE id = ?");
    proof {
        lema_empuja_param(parametros@, Param::Entero(ahora));
    }
    parametros.push(Param::Entero(ahora));
    proof {
        lema_empuja_param(parametros@, Param::Entero(id as i64));
    }
    parametros.push(Param::Entero(id as i64));
    proof {
        assert(acc.1 == !p.sin_campos());
        assert(sql@ == acc.0 + ", "@ + "fecha_actualizacion = ? WHERE id = ?"@);
        assert(sql@ == sp_sql_actualizacion(p));
        assert(vistas_params(parametros@) == sp_params_actualizacion(p, ahora as int, id as int));
    }
    Some((sql, parametros))
}

/// The single-row select by identifier.
pub fn consulta_por_id(id: i32) -> (r: (String, Vec<Param>))
    ensures
        r.0@ == "SELECT * FROM alumnos WHERE id = ?"@,
        vistas_params(r.1@) == seq![VistaParam::Entero(id as int)],
{
    let sql = String::from_str("SELECT * FROM alumnos WHERE id = ?");
    let mut parametros: Vec<Param> = Vec::new();
    parametros.push(Param::Entero(id as i64));
    proof {
        lema_vistas_params(parametros@);
        assert(vistas_params(parametros@) =~= seq![VistaParam::Entero(id as int)]);
    }
    (sql, parametros)
}

/// The delete by identifier.
pub fn consulta_eliminacion(id: i32) -> (r: (String, Vec<Param>))
    ensures
        r.0@ == "DELETE FROM alumnos WHERE id = ?"@,
        vistas_params(r.1@) == seq![VistaParam::Entero(id as int)],
{
    let sql = String::from_str("DELETE FROM alumnos WHERE id = ?");
    let mut parametros: Vec<Param> = Vec::new();
    parametros.push(Param::Entero(id as i64));
    proof {
        lema_vistas_params(parametros@);
        assert(vistas_params(parametros@) =~= seq![VistaParam::Entero(id as int)]);
    }
    (sql, parametros)
}

/// What running a write statement came to: how many rows it touched, a
/// unique-key violation, or any other storage failure with its text.
#[derive(Debug)]
pub enum ResultadoSql {
    Afectadas(u64),
    ViolacionUnica,
    Fallo(String),
}

/// The internal-failure envelope that carries the storage error text.
pub open spec fn sp_error_interno(e: (u16, ErrorResponse), detalle: Seq<char>) -> bool {
    &&& e.0 == CODIGO_ERROR_INTERNO
    &&& !e.1.success
    &&& e.1.message@ == "Error interno del servidor"@
    &&& e.1.errors matches Some(l) && l.deep_view() == seq![detalle]
}

/// Decides the create response from the insert's outcome: a unique-key
/// violation is the email conflict, any other failure is internal, and any
/// touched-rows outcome means the insert took.
pub fn concluir_insercion(resultado: &ResultadoSql) -> (r: Result<(), (u16, ErrorResponse)>)
    ensures
        match resultado {
            ResultadoSql::Afectadas(_) => r is Ok,
            ResultadoSql::ViolacionUnica => r matches Err(e) && e.0 == CODIGO_CONFLICTO
                && crate::rest::sp_error(e.1, "El email ya existe"@),
            ResultadoSql::Fallo(m) => r matches Err(e) && sp_error_interno(e, m@),
        },
{
    match resultado {
        ResultadoSql::Afectadas(_) => Ok(()),
        ResultadoSql::ViolacionUnica => Err(
            (
                CODIGO_CONFLICTO,
                ErrorResponse {
                    success: false,
                    message: String::from_str("El email ya existe"),
                    errors: None,
                },
            ),
        ),
        ResultadoSql::Fallo(m) => {
            let mut detalle: Vec<String> = Vec::new();
            detalle.push(clonar_texto(m));
            proof {
                assert(detalle.deep_view() =~= seq![m@]);
            }
            Err(
                (
                    CODIGO_ERROR_INTERNO,
                    ErrorResponse {
                        success: false,
                        message: String::from_str("Error interno del servidor"),
                        errors: Some(detalle),
                    },
                ),
            )
        },
    }
}

/// Decides the update response from the write's outcome: zero touched rows
/// is not-found even after a positive existence pre-check (the row may have
/// vanished in between), a unique-key violation is the email conflict, and
/// any other failure is internal.
pub fn concluir_actualizacion(resultado: &ResultadoSql) -> (r: Result<(), (u16, ErrorResponse)>)
    ensures
        match resultado {
            ResultadoSql::Afectadas(n) => if *n == 0 {
                r matches Err(e) && e.0 == CODIGO_NO_ENCONTRADO && crate::rest::sp_error(
                    e.1,
                    "Alumno no encontrado"@,
                )
            } else {
                r is Ok
            },
            ResultadoSql::ViolacionUnica => r matches Err(e) && e.0 == CODIGO_CONFLICTO
                && crate::rest::sp_error(e.1, "El email ya existe"@),
            ResultadoSql::Fallo(m) => r matches Err(e) && sp_error_interno(e, m@),
        },
{
    match resultado {
        ResultadoSql::Afectadas(n) => {
            if *n == 0 {
                Err(
                    (
                        CODIGO_NO_ENCONTRADO,
                        ErrorResponse {
                            success: false,
                            message: String::from_str("Alumno no encontrado"),
                            errors: None,
                        },
                    ),
                )
            } else {
                Ok(())
            }
        },
        ResultadoSql::ViolacionUnica => Err(
            (
                CODIGO_CONFLICTO,
                ErrorResponse {
                    success: false,
                    message: String::from_str("El email ya existe"),
                    errors: None,
                },
            ),
        ),
        ResultadoSql::Fallo(m) => {
            let mut detalle: Vec<String> = Vec::new();
            detalle.push(clonar_texto(m));
            proof {
                assert(detalle.deep_view() =~= seq![m@]);
            }
            Err(
                (
                    CODIGO_ERROR_INTERNO,
                    ErrorResponse {
                        success: false,
                        message: String::from_str("Error interno del servidor"),
                        errors: Some(detalle),
                    },
                ),
            )
        },
    }
}

/// Decides the delete response from the write's outcome: zero touched rows
/// is not-found, any positive count is success with no payload, any failure
/// is internal.
pub fn concluir_eliminacion(resultado: &ResultadoSql) -> (r: Result<
    AlumnoResponse,
    (u16, ErrorResponse),
>)
    ensures
        match resultado {
            ResultadoSql::Afectadas(n) => if *n == 0 {
                r matches Err(e) && e.0 == CODIGO_NO_ENCONTRADO && crate::rest::sp_error(
                    e.1,
                    "Alumno no encontrado"@,
                )
            } else {
                r matches Ok(resp) && (resp.success && resp.message@
                    == "Alumno eliminado exitosamente"@ && resp.data is None)
            },
            ResultadoSql::ViolacionUnica => r matches Err(e) && sp_error_interno(e, ""@),
            ResultadoSql::Fallo(m) => r matches Err(e) && sp_error_interno(e, m@),
        },
{
    match resultado {
        ResultadoSql::Afectadas(n) => {
            if *n == 0 {
                Err(
                    (
                        CODIGO_NO_ENCONTRADO,
                        ErrorResponse {
                            success: false,
                            message: String::from_str("Alumno no encontrado"),
                            errors: None,
                        },
                    ),
                )
            } else {
                Ok(
                    AlumnoResponse {
                        success: true,
                        message: String::from_str("Alumno eliminado exitosamente"),
                        data: None,
                    },
                )
            }
        },
        ResultadoSql::ViolacionUnica => {
            let mut detalle: Vec<String> = Vec::new();
            detalle.push(String::new());
            proof {
                reveal_strlit("");
                assert(detalle.deep_view() =~~= seq![""@]);
            }
            Err(
                (
                    CODIGO_ERROR_INTERNO,
                    ErrorResponse {
                        success: false,
                        message: String::from_str("Error interno del servidor"),
                        errors: Some(detalle),
                    },
                ),
            )
        },
        ResultadoSql::Fallo(m) => {
            let mut detalle: Vec<String> = Vec::new();
            detalle.push(clonar_texto(m));
            proof {
                assert(detalle.deep_view() =~= seq![m@]);
            }
            Err(
                (
                    CODIGO_ERROR_INTERNO,
                    ErrorResponse {
                        success: false,
                        message: String::from_str("Error interno del servidor"),
                        errors: Some(detalle),
                    },
                ),
            )
        },
    }
}

} // verus!
