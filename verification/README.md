# ibx_compat

The decisions of an ibapi-compatible client layer, written in Verus and
proved against their contracts: how callbacks and fields are named under the
reference client's spelling, which state a connection is in and what a
dispatch pass reads it from, which order ids are handed out, how a scan's
filters are composed, what a combination's legs carry, where a placement goes,
and what each refusal says.

- `src/` is the verified library. Each module states its model as spec
  functions, its operations' contracts over them, and the laws that relate
  them as public proof functions.
- `tests/` runs the library on concrete values.
- `app/` is the Python module around it: reading what a caller's objects state,
  calling the caller's wrapper, and the arithmetic on floats.
