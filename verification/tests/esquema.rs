use alumnos::graphql::ErrorAlmacen;
use alumnos::graphql::MutationRoot;
use alumnos::graphql::QueryRoot;
use alumnos::modelo::UpdateAlumnoRequest;
use alumnos::tabla::Tabla;

fn crear(m: &MutationRoot, tabla: &mut Tabla, nombre: &str, email: &str, instante: i64) {
    m.crear_alumno_con_fecha(
        tabla,
        nombre.to_string(),
        "García".to_string(),
        email.to_string(),
        20,
        "Ingeniería en Sistemas".to_string(),
        3,
        850,
        instante,
    )
    .unwrap();
}

fn sin_cambios() -> UpdateAlumnoRequest {
    UpdateAlumnoRequest {
        nombre: None,
        apellido: None,
        email: None,
        edad: None,
        carrera: None,
        semestre: None,
        promedio: None,
        activo: None,
    }
}

#[test]
fn crear_asigna_id_y_fechas() {
    let m = MutationRoot;
    let mut tabla = Tabla::nueva();
    let fila = m
        .crear_alumno_con_fecha(
            &mut tabla,
            "Ana".to_string(),
            "García".to_string(),
            "ana@uni.mx".to_string(),
            20,
            "Ingeniería en Sistemas".to_string(),
            3,
            850,
            44,
        )
        .unwrap();
    assert_eq!(fila.id, 1);
    assert!(fila.activo);
    assert_eq!(fila.fecha_registro, 44);
    assert_eq!(fila.fecha_actualizacion, 44);
}

#[test]
fn crear_no_valida_pero_respeta_el_email_unico() {
    let m = MutationRoot;
    let mut tabla = Tabla::nueva();
    // Fields the REST surface would refuse pass straight through here.
    m.crear_alumno_con_fecha(
        &mut tabla,
        "".to_string(),
        "".to_string(),
        "x".to_string(),
        200,
        "".to_string(),
        99,
        5000,
        1,
    )
    .unwrap();
    let r = m.crear_alumno_con_fecha(
        &mut tabla,
        "Otra".to_string(),
        "Persona".to_string(),
        "x".to_string(),
        21,
        "Derecho".to_string(),
        1,
        0,
        2,
    );
    assert_eq!(r.unwrap_err(), ErrorAlmacen::EmailDuplicado);
}

#[test]
fn consultas_listan_y_buscan() {
    let m = MutationRoot;
    let q = QueryRoot;
    let mut tabla = Tabla::nueva();
    crear(&m, &mut tabla, "Ana", "a@uni.mx", 1);
    crear(&m, &mut tabla, "Benito", "b@uni.mx", 2);
    let todos = q.alumnos(&tabla);
    let ids: Vec<i32> = todos.iter().map(|a| a.id).collect();
    assert_eq!(ids, vec![2, 1], "la consulta entrega la tabla entera, lo más nuevo primero");
    assert_eq!(q.alumno(&tabla, 1).unwrap().nombre, "Ana");
    assert!(q.alumno(&tabla, 9).is_none());
}

#[test]
fn editar_id_inexistente_devuelve_nada() {
    let m = MutationRoot;
    let mut tabla = Tabla::nueva();
    let r = m.editar_alumno_con_fecha(&mut tabla, 4, sin_cambios(), 9).unwrap();
    assert!(r.is_none());
}

#[test]
fn editar_sin_campos_solo_refresca_la_fecha() {
    let m = MutationRoot;
    let mut tabla = Tabla::nueva();
    crear(&m, &mut tabla, "Ana", "a@uni.mx", 10);
    let fila = m.editar_alumno_con_fecha(&mut tabla, 1, sin_cambios(), 99).unwrap().unwrap();
    assert_eq!(fila.nombre, "Ana");
    assert_eq!(fila.fecha_registro, 10);
    assert_eq!(fila.fecha_actualizacion, 99);
}

#[test]
fn editar_mezcla_los_campos_suministrados() {
    let m = MutationRoot;
    let mut tabla = Tabla::nueva();
    crear(&m, &mut tabla, "Ana", "a@uni.mx", 10);
    let mut cambios = sin_cambios();
    cambios.nombre = Some("Anabel".to_string());
    cambios.promedio = Some(990);
    let fila = m.editar_alumno_con_fecha(&mut tabla, 1, cambios, 20).unwrap().unwrap();
    assert_eq!(fila.nombre, "Anabel");
    assert_eq!(fila.promedio, 990);
    assert_eq!(fila.apellido, "García");
}

#[test]
fn editar_con_email_ajeno_falla() {
    let m = MutationRoot;
    let mut tabla = Tabla::nueva();
    crear(&m, &mut tabla, "Ana", "a@uni.mx", 1);
    crear(&m, &mut tabla, "Benito", "b@uni.mx", 2);
    let mut cambios = sin_cambios();
    cambios.email = Some("a@uni.mx".to_string());
    let r = m.editar_alumno_con_fecha(&mut tabla, 2, cambios, 9);
    assert_eq!(r.unwrap_err(), ErrorAlmacen::EmailDuplicado);
}

#[test]
fn eliminar_informa_si_habia_fila() {
    let m = MutationRoot;
    let mut tabla = Tabla::nueva();
    crear(&m, &mut tabla, "Ana", "a@uni.mx", 1);
    assert!(!m.eliminar_alumno(&mut tabla, 9));
    assert!(m.eliminar_alumno(&mut tabla, 1));
    assert!(!m.eliminar_alumno(&mut tabla, 1));
}

#[test]
fn mutaciones_con_el_reloj_del_servidor() {
    let m = MutationRoot;
    let mut tabla = Tabla::nueva();
    let fila = m
        .crear_alumno(
            &mut tabla,
            "Ana".to_string(),
            "García".to_string(),
            "ana@uni.mx".to_string(),
            20,
            "Ingeniería en Sistemas".to_string(),
            3,
            850,
        )
        .unwrap();
    assert_eq!(fila.fecha_registro, fila.fecha_actualizacion);
    let mut cambios = sin_cambios();
    cambios.edad = Some(21);
    let tras = m.editar_alumno(&mut tabla, fila.id, cambios).unwrap().unwrap();
    assert_eq!(tras.edad, 21);
    assert!(tras.fecha_actualizacion >= tras.fecha_registro);
}
