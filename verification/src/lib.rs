//! A verified core for a small student-records service: one relational table
//! of students ("alumnos"), exposed through five REST-style operations and a
//! GraphQL-style query/mutation pair. The storage semantics are modelled by an
//! in-memory table; the SQL text and parameter lists that a database client
//! executes are built and specified here as well.

pub mod cadenas;
pub mod consultas;
pub mod graphql;
pub mod leyes;
pub mod listado;
pub mod modelo;
pub mod reloj;
pub mod rest;
pub mod tabla;
pub mod validacion;
