# Derroche

Aplicación de escritorio para registrar y analizar gastos personales, con
su lógica escrita en Verus y demostrada.

## Estructura

- `src/`: la biblioteca verificada.
  - `formato`, `numeros`, `texto`: meses, números y montos escritos, y
    operaciones sobre texto.
  - `fecha`: fechas `DD-MM-AAAA` y días por mes.
  - `gastos`, `filas`, `tabla`, `pantalla_gastos`: validación del
    formulario, orden y filtrado de la tabla, y la máquina de estados de la
    pantalla de gastos.
  - `configuracion`, `aplicacion`, `analisis`, `models`, `repository`: la
    pantalla de configuración, el reparto de datos entre pantallas, el mes
    anterior y los totales del año, y las reglas de los datos guardados.
  - `version`, `orden`, `actualizacion`: versiones semánticas, su orden de
    precedencia y la decisión de ofrecer una actualización.
- `app/`: el programa: interfaz con `iced`, base de datos SQLite con
  `rusqlite`, consultas HTTP con `reqwest` y los cálculos con montos de
  punto flotante.
- `tests/`: pruebas de la biblioteca.
