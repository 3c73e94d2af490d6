use alumnos::consultas::concluir_actualizacion;
use alumnos::consultas::concluir_eliminacion;
use alumnos::consultas::concluir_insercion;
use alumnos::consultas::consulta_actualizacion;
use alumnos::consultas::consulta_eliminacion;
use alumnos::consultas::consulta_insercion;
use alumnos::consultas::consulta_listado;
use alumnos::consultas::consulta_por_id;
use alumnos::consultas::Param;
use alumnos::consultas::ResultadoSql;
use alumnos::modelo::CreateAlumnoRequest;
use alumnos::modelo::PaginationQuery;
use alumnos::modelo::UpdateAlumnoRequest;

fn sin_cambios() -> UpdateAlumnoRequest {
    UpdateAlumnoRequest {
        nombre: None,
        apellido: None,
        email: None,
        edad: None,
        carrera: None,
        semestre: None,
        promedio: None,
        activo: None,
    }
}

fn texto(p: &Param) -> &str {
    match p {
        Param::Texto(s) => s,
        otro => panic!("se esperaba un parámetro de texto, no {otro:?}"),
    }
}

fn entero(p: &Param) -> i64 {
    match p {
        Param::Entero(n) => *n,
        otro => panic!("se esperaba un parámetro entero, no {otro:?}"),
    }
}

#[test]
fn listado_sin_filtros() {
    let consulta = PaginationQuery { page: None, limit: None, search: None, carrera: None, activo: None };
    let r = consulta_listado(&consulta);
    assert_eq!(
        r.sql,
        "SELECT * FROM alumnos WHERE 1=1 ORDER BY fecha_registro DESC, id DESC LIMIT ? OFFSET ?"
    );
    assert_eq!(r.sql_conteo, "SELECT COUNT(*) as total FROM alumnos WHERE 1=1");
    assert_eq!(r.parametros.len(), 2);
    assert_eq!(entero(&r.parametros[0]), 10, "el límite por omisión es 10");
    assert_eq!(entero(&r.parametros[1]), 0, "la primera página no se desplaza");
    assert!(r.parametros_conteo.is_empty());
}

#[test]
fn listado_con_todos_los_filtros() {
    let consulta = PaginationQuery {
        page: Some(3),
        limit: Some(200),
        search: Some("gar".to_string()),
        carrera: Some("Derecho".to_string()),
        activo: Some(true),
    };
    let r = consulta_listado(&consulta);
    assert_eq!(
        r.sql,
        "SELECT * FROM alumnos WHERE 1=1 AND (nombre LIKE ? OR apellido LIKE ?) AND carrera = ? \
         AND activo = ? ORDER BY fecha_registro DESC, id DESC LIMIT ? OFFSET ?"
    );
    assert_eq!(
        r.sql_conteo,
        "SELECT COUNT(*) as total FROM alumnos WHERE 1=1 AND (nombre LIKE ? OR apellido LIKE ?) \
         AND carrera = ? AND activo = ?"
    );
    assert_eq!(texto(&r.parametros[0]), "%gar%");
    assert_eq!(texto(&r.parametros[1]), "%gar%");
    assert_eq!(texto(&r.parametros[2]), "Derecho");
    assert!(matches!(r.parametros[3], Param::Logico(true)));
    assert_eq!(entero(&r.parametros[4]), 100, "el límite se recorta a 100");
    assert_eq!(entero(&r.parametros[5]), 200, "la tercera página salta dos de cien");
    assert_eq!(r.parametros_conteo.len(), 4, "el conteo no lleva límite ni desplazamiento");
}

#[test]
fn insercion_liga_cada_columna() {
    let p = CreateAlumnoRequest {
        nombre: "Ana".to_string(),
        apellido: "García".to_string(),
        email: "ana@uni.mx".to_string(),
        edad: 20,
        carrera: "Ingeniería en Sistemas".to_string(),
        semestre: 3,
        promedio: None,
    };
    let (sql, params) = consulta_insercion(&p, 777);
    assert_eq!(
        sql,
        "INSERT INTO alumnos (nombre, apellido, email, edad, carrera, semestre, promedio, activo, \
         fecha_registro, fecha_actualizacion) VALUES (?, ?, ?, ?, ?, ?, ?, ?, ?, ?)"
    );
    assert_eq!(params.len(), 10);
    assert_eq!(texto(&params[0]), "Ana");
    assert_eq!(texto(&params[2]), "ana@uni.mx");
    assert_eq!(entero(&params[3]), 20);
    assert!(matches!(params[6], Param::Promedio(0)), "sin promedio se inserta 0");
    assert!(matches!(params[7], Param::Logico(true)));
    assert_eq!(entero(&params[8]), 777);
    assert_eq!(entero(&params[9]), 777);
}

#[test]
fn actualizacion_sin_campos_no_produce_consulta() {
    assert!(consulta_actualizacion(1, &sin_cambios(), 9).is_none());
}

#[test]
fn actualizacion_solo_toca_las_columnas_suministradas() {
    let mut cambios = sin_cambios();
    cambios.apellido = Some("Núñez".to_string());
    cambios.semestre = Some(4);
    cambios.activo = Some(false);
    let (sql, params) = consulta_actualizacion(12, &cambios, 900).unwrap();
    assert_eq!(
        sql,
        "UPDATE alumnos SET apellido = ?, semestre = ?, activo = ?, fecha_actualizacion = ? \
         WHERE id = ?"
    );
    assert_eq!(params.len(), 5);
    assert_eq!(texto(&params[0]), "Núñez");
    assert_eq!(entero(&params[1]), 4);
    assert!(matches!(params[2], Param::Logico(false)));
    assert_eq!(entero(&params[3]), 900);
    assert_eq!(entero(&params[4]), 12);
}

#[test]
fn actualizacion_con_un_solo_campo() {
    let mut cambios = sin_cambios();
    cambios.promedio = Some(950);
    let (sql, params) = consulta_actualizacion(3, &cambios, 1).unwrap();
    assert_eq!(sql, "UPDATE alumnos SET promedio = ?, fecha_actualizacion = ? WHERE id = ?");
    assert!(matches!(params[0], Param::Promedio(950)));
}

#[test]
fn seleccion_y_borrado_por_id() {
    let (sql, params) = consulta_por_id(8);
    assert_eq!(sql, "SELECT * FROM alumnos WHERE id = ?");
    assert_eq!(entero(&params[0]), 8);
    let (sql, params) = consulta_eliminacion(9);
    assert_eq!(sql, "DELETE FROM alumnos WHERE id = ?");
    assert_eq!(entero(&params[0]), 9);
}

#[test]
fn desenlace_de_la_insercion() {
    assert!(concluir_insercion(&ResultadoSql::Afectadas(1)).is_ok());
    let (codigo, e) = concluir_insercion(&ResultadoSql::ViolacionUnica).unwrap_err();
    assert_eq!(codigo, 409);
    assert_eq!(e.message, "El email ya existe");
    let (codigo, e) = concluir_insercion(&ResultadoSql::Fallo("se cayó".to_string())).unwrap_err();
    assert_eq!(codigo, 500);
    assert_eq!(e.message, "Error interno del servidor");
    assert_eq!(e.errors.unwrap(), vec!["se cayó".to_string()]);
}

#[test]
fn desenlace_de_la_actualizacion() {
    let (codigo, e) = concluir_actualizacion(&ResultadoSql::Afectadas(0)).unwrap_err();
    assert_eq!(codigo, 404, "si la fila desapareció entre la comprobación y la escritura, es no encontrado");
    assert_eq!(e.message, "Alumno no encontrado");
    assert!(concluir_actualizacion(&ResultadoSql::Afectadas(1)).is_ok());
    let (codigo, _) = concluir_actualizacion(&ResultadoSql::ViolacionUnica).unwrap_err();
    assert_eq!(codigo, 409);
}

#[test]
fn desenlace_del_borrado() {
    let (codigo, _) = concluir_eliminacion(&ResultadoSql::Afectadas(0)).unwrap_err();
    assert_eq!(codigo, 404);
    let resp = concluir_eliminacion(&ResultadoSql::Afectadas(2)).unwrap();
    assert!(resp.success && resp.data.is_none());
    let (codigo, _) = concluir_eliminacion(&ResultadoSql::Fallo("x".to_string())).unwrap_err();
    assert_eq!(codigo, 500);
}
