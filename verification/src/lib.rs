//! Derroche: registro y análisis de gastos personales.
//!
//! Este crate contiene la lógica verificada de la aplicación: formato de
//! meses, montos y fechas, validación del formulario de gastos, la máquina
//! de estados de la pantalla de configuración y el manejo de versiones
//! para buscar actualizaciones.

pub mod texto;
pub mod models;
pub mod numeros;
pub mod formato;
pub mod fecha;
pub mod gastos;
pub mod filas;
pub mod tabla;
pub mod pantalla_gastos;
pub mod configuracion;
pub mod analisis;
pub mod repository;
pub mod version;
pub mod orden;
pub mod actualizacion;
pub mod aplicacion;
