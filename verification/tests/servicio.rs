use alumnos::modelo::CreateAlumnoRequest;
use alumnos::modelo::PaginationQuery;
use alumnos::modelo::UpdateAlumnoRequest;
use alumnos::rest::create_alumno;
use alumnos::rest::create_alumno_con_fecha;
use alumnos::rest::delete_alumno;
use alumnos::rest::get_alumno;
use alumnos::rest::get_alumnos;
use alumnos::rest::update_alumno_con_fecha;
use alumnos::tabla::Tabla;

fn peticion(nombre: &str, email: &str) -> CreateAlumnoRequest {
    CreateAlumnoRequest {
        nombre: nombre.to_string(),
        apellido: "García".to_string(),
        email: email.to_string(),
        edad: 20,
        carrera: "Ingeniería en Sistemas".to_string(),
        semestre: 3,
        promedio: Some(850),
    }
}

fn sin_cambios() -> UpdateAlumnoRequest {
    UpdateAlumnoRequest {
        nombre: None,
        apellido: None,
        email: None,
        edad: None,
        carrera: None,
        semestre: None,
        promedio: None,
        activo: None,
    }
}

fn consulta_vacia() -> PaginationQuery {
    PaginationQuery { page: None, limit: None, search: None, carrera: None, activo: None }
}

#[test]
fn crear_devuelve_id_activo_y_fechas_iguales() {
    let mut tabla = Tabla::nueva();
    let r = create_alumno_con_fecha(&mut tabla, peticion("Ana", "ana@uni.mx"), 5_000);
    let resp = r.expect("una petición válida se acepta");
    assert!(resp.success);
    assert_eq!(resp.message, "Alumno creado exitosamente");
    let fila = resp.data.expect("la respuesta trae el registro");
    assert_eq!(fila.id, 1);
    assert!(fila.activo);
    assert_eq!(fila.fecha_registro, 5_000);
    assert_eq!(fila.fecha_actualizacion, 5_000);
    assert_eq!(fila.promedio, 850);
}

#[test]
fn crear_con_el_reloj_del_servidor() {
    let mut tabla = Tabla::nueva();
    let resp = create_alumno(&mut tabla, peticion("Ana", "ana@uni.mx")).unwrap();
    let fila = resp.data.unwrap();
    assert_eq!(fila.id, 1);
    assert!(fila.activo);
    assert_eq!(fila.fecha_registro, fila.fecha_actualizacion);
    assert!(fila.fecha_registro > 0, "el reloj entrega un instante posterior a la época");
}

#[test]
fn crear_con_email_repetido_es_conflicto() {
    let mut tabla = Tabla::nueva();
    create_alumno_con_fecha(&mut tabla, peticion("Ana", "ana@uni.mx"), 1).unwrap();
    let r = create_alumno_con_fecha(&mut tabla, peticion("Benito", "ana@uni.mx"), 2);
    let (codigo, e) = r.expect_err("el email repetido se rechaza");
    assert_eq!(codigo, 409);
    assert_eq!(e.message, "El email ya existe");
    assert!(e.errors.is_none());
    assert_eq!(tabla.filas.len(), 1);
}

#[test]
fn crear_sin_promedio_usa_cero() {
    let mut tabla = Tabla::nueva();
    let mut p = peticion("Ana", "ana@uni.mx");
    p.promedio = None;
    let resp = create_alumno_con_fecha(&mut tabla, p, 1).unwrap();
    assert_eq!(resp.data.unwrap().promedio, 0);
}

#[test]
fn crear_invalido_lista_mensajes_en_orden() {
    let mut tabla = Tabla::nueva();
    let p = CreateAlumnoRequest {
        nombre: "A".to_string(),
        apellido: "García".to_string(),
        email: "sin-arroba".to_string(),
        edad: 15,
        carrera: "Ing".to_string(),
        semestre: 11,
        promedio: Some(1010),
    };
    let (codigo, e) = create_alumno_con_fecha(&mut tabla, p, 1).unwrap_err();
    assert_eq!(codigo, 400);
    assert_eq!(e.message, "Datos de entrada inválidos");
    let lista = e.errors.unwrap();
    assert_eq!(
        lista,
        vec![
            "Nombre debe tener entre 2 y 100 caracteres".to_string(),
            "Email inválido".to_string(),
            "Edad debe estar entre 16 y 65 años".to_string(),
            "Carrera debe tener entre 5 y 100 caracteres".to_string(),
            "Semestre debe estar entre 1 y 10".to_string(),
            "Promedio debe estar entre 0.0 y 10.0".to_string(),
        ]
    );
    assert_eq!(tabla.filas.len(), 0);
}

#[test]
fn limites_de_campos_en_la_frontera() {
    let mut tabla = Tabla::nueva();
    let mut p = peticion("Ana", "a1@uni.mx");
    p.edad = 15;
    assert!(create_alumno_con_fecha(&mut tabla, p, 1).is_err());
    let mut p = peticion("Ana", "a2@uni.mx");
    p.edad = 16;
    assert!(create_alumno_con_fecha(&mut tabla, p, 1).is_ok());
    let mut p = peticion("Ana", "a3@uni.mx");
    p.promedio = Some(1000);
    assert!(create_alumno_con_fecha(&mut tabla, p, 1).is_ok());
    let mut p = peticion("Ana", "a4@uni.mx");
    p.promedio = Some(1010);
    assert!(create_alumno_con_fecha(&mut tabla, p, 1).is_err());
}

#[test]
fn actualizar_sin_campos_es_peticion_invalida() {
    let mut tabla = Tabla::nueva();
    create_alumno_con_fecha(&mut tabla, peticion("Ana", "ana@uni.mx"), 1).unwrap();
    let (codigo, e) = update_alumno_con_fecha(&mut tabla, 1, sin_cambios(), 9).unwrap_err();
    assert_eq!(codigo, 400);
    assert_eq!(e.message, "No hay campos para actualizar");
    let fila = get_alumno(&tabla, 1).unwrap().data.unwrap();
    assert_eq!(fila.fecha_actualizacion, 1, "la tabla queda sin tocar");
}

#[test]
fn actualizar_id_inexistente_es_no_encontrado() {
    let mut tabla = Tabla::nueva();
    let mut cambios = sin_cambios();
    cambios.edad = Some(30);
    let (codigo, e) = update_alumno_con_fecha(&mut tabla, 7, cambios, 9).unwrap_err();
    assert_eq!(codigo, 404);
    assert_eq!(e.message, "Alumno no encontrado");
}

#[test]
fn actualizar_cambia_solo_lo_suministrado() {
    let mut tabla = Tabla::nueva();
    create_alumno_con_fecha(&mut tabla, peticion("Ana", "ana@uni.mx"), 100).unwrap();
    let mut cambios = sin_cambios();
    cambios.edad = Some(30);
    cambios.activo = Some(false);
    let resp = update_alumno_con_fecha(&mut tabla, 1, cambios, 200).unwrap();
    let fila = resp.data.unwrap();
    assert_eq!(fila.edad, 30);
    assert!(!fila.activo);
    assert_eq!(fila.nombre, "Ana");
    assert_eq!(fila.fecha_registro, 100);
    assert_eq!(fila.fecha_actualizacion, 200);
}

#[test]
fn actualizar_con_email_de_otro_es_conflicto() {
    let mut tabla = Tabla::nueva();
    create_alumno_con_fecha(&mut tabla, peticion("Ana", "ana@uni.mx"), 1).unwrap();
    create_alumno_con_fecha(&mut tabla, peticion("Benito", "benito@uni.mx"), 2).unwrap();
    let mut cambios = sin_cambios();
    cambios.email = Some("ana@uni.mx".to_string());
    let (codigo, _) = update_alumno_con_fecha(&mut tabla, 2, cambios, 9).unwrap_err();
    assert_eq!(codigo, 409);
}

#[test]
fn actualizar_conservando_su_propio_email_no_es_conflicto() {
    let mut tabla = Tabla::nueva();
    create_alumno_con_fecha(&mut tabla, peticion("Ana", "ana@uni.mx"), 1).unwrap();
    let mut cambios = sin_cambios();
    cambios.email = Some("ana@uni.mx".to_string());
    assert!(update_alumno_con_fecha(&mut tabla, 1, cambios, 9).is_ok());
}

#[test]
fn eliminar_y_luego_buscar_no_encuentra() {
    let mut tabla = Tabla::nueva();
    create_alumno_con_fecha(&mut tabla, peticion("Ana", "ana@uni.mx"), 1).unwrap();
    let (codigo, _) = delete_alumno(&mut tabla, 5).unwrap_err();
    assert_eq!(codigo, 404, "eliminar un id inexistente es no encontrado");
    let resp = delete_alumno(&mut tabla, 1).unwrap();
    assert!(resp.success);
    assert!(resp.data.is_none());
    let (codigo, _) = get_alumno(&tabla, 1).unwrap_err();
    assert_eq!(codigo, 404, "tras eliminar, buscar no encuentra");
}

#[test]
fn obtener_por_id() {
    let mut tabla = Tabla::nueva();
    create_alumno_con_fecha(&mut tabla, peticion("Ana", "ana@uni.mx"), 1).unwrap();
    let resp = get_alumno(&tabla, 1).unwrap();
    assert_eq!(resp.message, "Alumno encontrado");
    assert_eq!(resp.data.unwrap().nombre, "Ana");
    assert!(get_alumno(&tabla, 2).is_err());
}

fn tabla_de(n: usize) -> Tabla {
    let mut tabla = Tabla::nueva();
    for i in 0..n {
        let p = peticion(&format!("Alumno{i}"), &format!("a{i}@uni.mx"));
        create_alumno_con_fecha(&mut tabla, p, i as i64).unwrap();
    }
    tabla
}

#[test]
fn paginacion_devuelve_diez_de_veinticinco() {
    let tabla = tabla_de(25);
    let mut consulta = consulta_vacia();
    consulta.page = Some(1);
    consulta.limit = Some(10);
    let resp = get_alumnos(&tabla, &consulta);
    assert!(resp.success);
    assert_eq!(resp.data.len(), 10);
    assert_eq!(resp.total, 25);
}

#[test]
fn paginacion_normaliza_los_extremos() {
    let tabla = tabla_de(5);
    let mut consulta = consulta_vacia();
    consulta.page = Some(0);
    consulta.limit = Some(200);
    let resp = get_alumnos(&tabla, &consulta);
    assert_eq!(resp.data.len(), 5, "el límite se recorta a 100 y la página sube a 1");
    assert_eq!(resp.total, 5);
    let mut consulta = consulta_vacia();
    consulta.page = Some(2);
    consulta.limit = Some(3);
    let resp = get_alumnos(&tabla, &consulta);
    assert_eq!(resp.data.len(), 2, "la segunda página de 3 sobre 5 filas trae 2");
}

#[test]
fn listado_ordena_del_mas_reciente_al_mas_antiguo() {
    let tabla = tabla_de(3);
    let resp = get_alumnos(&tabla, &consulta_vacia());
    let ids: Vec<i32> = resp.data.iter().map(|a| a.id).collect();
    assert_eq!(ids, vec![3, 2, 1]);
}

#[test]
fn listado_desempata_fechas_iguales_por_id_descendente() {
    let mut tabla = Tabla::nueva();
    create_alumno_con_fecha(&mut tabla, peticion("Ana", "a@uni.mx"), 50).unwrap();
    create_alumno_con_fecha(&mut tabla, peticion("Benito", "b@uni.mx"), 50).unwrap();
    let resp = get_alumnos(&tabla, &consulta_vacia());
    let ids: Vec<i32> = resp.data.iter().map(|a| a.id).collect();
    assert_eq!(ids, vec![2, 1]);
}

#[test]
fn busqueda_no_distingue_mayusculas() {
    let mut tabla = Tabla::nueva();
    create_alumno_con_fecha(&mut tabla, peticion("Mariana", "m@uni.mx"), 1).unwrap();
    create_alumno_con_fecha(&mut tabla, peticion("Pedro", "p@uni.mx"), 2).unwrap();
    let mut consulta = consulta_vacia();
    consulta.search = Some("MARI".to_string());
    let resp = get_alumnos(&tabla, &consulta);
    assert_eq!(resp.total, 1);
    assert_eq!(resp.data[0].nombre, "Mariana");
}

#[test]
fn busqueda_tambien_mira_el_apellido() {
    let mut tabla = Tabla::nueva();
    let mut p = peticion("Pedro", "p@uni.mx");
    p.apellido = "Zubizarreta".to_string();
    create_alumno_con_fecha(&mut tabla, p, 1).unwrap();
    let mut consulta = consulta_vacia();
    consulta.search = Some("zubi".to_string());
    assert_eq!(get_alumnos(&tabla, &consulta).total, 1);
}

#[test]
fn filtros_de_carrera_y_activo() {
    let mut tabla = Tabla::nueva();
    let mut p = peticion("Ana", "a@uni.mx");
    p.carrera = "Derecho Penal".to_string();
    create_alumno_con_fecha(&mut tabla, p, 1).unwrap();
    create_alumno_con_fecha(&mut tabla, peticion("Benito", "b@uni.mx"), 2).unwrap();
    let mut cambios = sin_cambios();
    cambios.activo = Some(false);
    update_alumno_con_fecha(&mut tabla, 2, cambios, 3).unwrap();
    let mut consulta = consulta_vacia();
    consulta.carrera = Some("Derecho Penal".to_string());
    assert_eq!(get_alumnos(&tabla, &consulta).total, 1);
    let mut consulta = consulta_vacia();
    consulta.carrera = Some("Derecho".to_string());
    assert_eq!(get_alumnos(&tabla, &consulta).total, 0, "la carrera se compara exacta");
    let mut consulta = consulta_vacia();
    consulta.activo = Some(false);
    let resp = get_alumnos(&tabla, &consulta);
    assert_eq!(resp.total, 1);
    assert_eq!(resp.data[0].id, 2);
}

#[test]
fn emails_validos_e_invalidos() {
    let mut tabla = Tabla::nueva();
    let mut p = peticion("Ana", "ana@uni.mx");
    p.email = "nombre.apellido@sub.dominio.mx".to_string();
    assert!(create_alumno_con_fecha(&mut tabla, p, 1).is_ok());
    for malo in ["", "sin-arroba", "a@", "@dominio.mx", "a@-mal-"] {
        let mut p = peticion("Ana", "x@uni.mx");
        p.email = malo.to_string();
        let (codigo, e) = create_alumno_con_fecha(&mut tabla, p, 1).unwrap_err();
        assert_eq!(codigo, 400, "{malo:?} se rechaza");
        assert!(e.errors.unwrap().contains(&"Email inválido".to_string()));
    }
}

#[test]
fn actualizar_con_campos_invalidos_lista_sus_mensajes() {
    let mut tabla = Tabla::nueva();
    create_alumno_con_fecha(&mut tabla, peticion("Ana", "ana@uni.mx"), 1).unwrap();
    let mut cambios = sin_cambios();
    cambios.apellido = Some("X".to_string());
    cambios.promedio = Some(2000);
    let (codigo, e) = update_alumno_con_fecha(&mut tabla, 1, cambios, 9).unwrap_err();
    assert_eq!(codigo, 400);
    assert_eq!(
        e.errors.unwrap(),
        vec![
            "Apellido debe tener entre 2 y 100 caracteres".to_string(),
            "Promedio debe estar entre 0.0 y 10.0".to_string(),
        ]
    );
}

#[test]
fn actualizar_con_el_reloj_del_servidor() {
    let mut tabla = Tabla::nueva();
    create_alumno_con_fecha(&mut tabla, peticion("Ana", "ana@uni.mx"), 1).unwrap();
    let mut cambios = sin_cambios();
    cambios.semestre = Some(4);
    let resp = alumnos::rest::update_alumno(&mut tabla, 1, cambios).unwrap();
    let fila = resp.data.unwrap();
    assert_eq!(fila.semestre, 4);
    assert!(fila.fecha_actualizacion > fila.fecha_registro);
}
