# midden

The request logic of a self-hosted file and paste sharing service, written in
Verus and proved against its contracts.

- `src/` is the verified library. Each module states what its functions return
  over mathematical models (`Seq`, `Map`, `int`) and proves it:
  - `settings`, `settings_form`, `form_fields`, `homepage`: the runtime settings
    and the admin form that edits them;
  - `access`, `accounts`, `oidc`: who may see, edit, delete and administer what,
    password and provider sign-in;
  - `upload`, `intake`, `fetch`, `imagestrip`, `imagestream`, `tus`, `expiry`:
    accepting uploads step by step (by form or by URL), stripping image
    metadata (whole or as a stream), resumable uploads, expiry limits;
  - `delivery`, `net`, `crypto`: file links, the isolated file origin, signed
    internal links, URL upload targets, digests;
  - `api`, `openapi`, `pastes`, `browse`, `moderation`, `system`, `samples`:
    the API's bodies and contract, paste rendering, listings, moderation, service routes;
  - `model`, `numbers`, `text`: roles and errors, decimal numbers, text.
  Calls into `url`, `mime`, `mime_guess`, `sha2`, `base64`, `html-escape`,
  `http` and `syntect` go through small trusted wrappers whose contracts are
  documented where they are declared. The `law_*` proof functions state the
  properties that hold across calls.
- `app/` holds what the library leaves to its host: file and network input and
  output around the verified decisions (the loops that run the upload and
  fetch steps, streaming metadata removal, name resolution, JSON bodies and
  the OpenAPI document).
- `tests/` runs the library on concrete inputs.
