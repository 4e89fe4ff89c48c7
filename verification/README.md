# pds_dash

A small web dashboard for an AT Protocol PDS: it lists the PDS's users and
lets people sign up through the PDS's captcha gate with a fresh invite code.

- `src/` is the verified library (Verus): the store of pending sign-ups with
  its ten-minute expiry (`sessions`), the sign-up flow from form to captcha
  callback (`signup`), what is made of the PDS's answers (`pds`), the pages
  (`pages`), string helpers (`text`), the encodings stated as mathematical
  functions (`encoding`), and the calls into std and outside crates with
  their contracts (`bindings`).
- `app/` is the web server around it (axum, askama templates, reqwest and
  jacquard for the PDS's XRPC calls).
- `tests/` runs the library on concrete values.
