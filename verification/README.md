# wmi

WMI (Windows Management Instrumentation) for Rust, in two parts.

- `src/` is the library `wmi`, verified with Verus: the WQL text of queries
  (string literals, identifiers, `SELECT`, notification and `ASSOCIATORS OF`
  statements, with a `WHERE` clause that does not depend on the order of the
  filters), the tables of WMI status codes, the conversion of values to the
  CIM type a property declares, the plain form of a COM `VARIANT` and the
  rules by which values are written into one and read back, the conversions
  between values and Rust types, the buffer behind asynchronous query results,
  and the readers of WMI's interval and date-and-time texts (the latter with
  `chrono` and with `time`).
- `app/` is the Windows side around it: COM connections and contexts, query,
  method and notification calls, the `VARIANT` and `SAFEARRAY` marshaling,
  serde (de)serialization of results, and the error messages.

`tests/` runs the library on concrete values.
