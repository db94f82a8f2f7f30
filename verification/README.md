# aga8_api

A web service that produces thermodynamic data for gas mixtures with the AGA8
equations of state (the `aga8` crate) and writes it in the Multiflash tab file
format.

The verified library under `src/` holds everything of the service that works
on names, counts and text:

- `models.rs`: the equation-of-state choice (`EquationOfState`, its selection
  from a request's name, the default name) and the shape checks on a
  composition.
- `aga8_calc.rs`: the component table that addresses the 21 slots of an AGA8
  composition, the slot each mole fraction goes to, and the error type.
- `tab_file.rs`: the complete tab file layout: header, molecular weights,
  value arrays with their 80-byte line wrapping, critical point, columns and
  one `PVTTABLE POINT` line per grid point. Numbers reach it as the decimal
  text that stands for them in the file.
- `service.rs`: a data set written out as a tab file.
- `text.rs`: case mapping, joining, byte lengths.

`app/` is the HTTP server (poem, poem-openapi, tokio): request parsing, the
floating-point grids and range checks, the calls into `aga8`, and the
conversion of numbers to their decimal text.
