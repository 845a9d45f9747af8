# npa-web

A local browser tool for the human-facing NPA proof flow, built around a
verified library.

- `src/` is the library, verified with Verus: the package fixture
  allowlist and run summaries (`package_fixture`), the demo modes, form
  inputs and workspace state (`state`), the input checks and the decisions
  on what the Human API answers (`flow`), import-line scanning
  (`source_imports`), the standard-library demo's fixed imports and
  certificate checks (`std_demo`), the render views and template execution
  (`render`), the stylesheet (`style`), and shared text handling (`text`).
- `app/` is the server around it: the Human API session store, the package
  commands, the certificate fixtures, serializable copies of the views, and
  the cached stylesheet.
- The renderer takes template sources of bounded nesting and without
  template calls (`render::source_fits`, checked by
  `render::template_source_fits`): deeper nesting, or a template that calls
  itself, exhausts a thread's stack inside `go_html_template`.
- `tests/` exercises the library.
