# biscuit_python

The verified core of the Python bindings to biscuit authorization tokens.

- `src/` is the library, checked by Verus. It holds the term conversions
  (`term`), keys (`keys`), datalog facts, rules, checks and policies
  (`datalog`), block builders (`block`), tokens and third-party blocks
  (`biscuit`) and authorizers (`authorizer`). Calls into biscuit-auth, chrono
  and hex go through small trusted wrappers whose contracts state what those
  crates do; everything around them is proved against those contracts.
- `app/` is the `biscuit_auth` Python module built with pyo3: Python classes
  over the library types, the conversion of Python values, and the Python
  callbacks used as root key providers and external datalog functions.
- `tests/` exercises the library with the real outside crates.
