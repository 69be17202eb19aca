# easi_publish

Compile Typst templates with user data into PDF or HTML documents.

- `src/` is the verified library: data sets (`sys.inputs` plus virtual
  files), template preparation and the rules that bind data files to a
  template's project, file-access rules, the `datetime.today()` clock, PDF and
  HTML settings (including PDF standards validation), the template registry of
  `Renderer`, diagnostics and error messages, image downscaling, and what the
  HTTP responses for rendered documents carry. Calls into Typst, chrono, the
  image codecs, comemo and tokio go through small trusted wrappers; their
  contracts state what those crates' sources and documentation show, and a
  wrapper whose result cannot be described over plain values states nothing
  of it.
- `app/` drives the Typst compiler: it implements Typst's `World` trait on top
  of the library's rules, renders to PDF and HTML, runs async renders on
  blocking threads, and turns the response descriptions into axum responses.
- `tests/` exercises the library with the real outside crates linked.
