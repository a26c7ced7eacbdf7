# share_anything

The verified core of ShareAnything, a file-sharing service: uploads to
storage or peer to peer, share codes, one-time and password-protected
downloads (a one-time file's row is deleted when its download URL is
issued), ZIP archives of several files, signed tokens, link previews, API
keys with scopes, and rate limits.

- `src/` is the library, written in Verus. Its public functions state what
  they return in `requires`/`ensures` contracts that Verus proves; laws that
  relate several calls are public proof functions named `lemma_*`. The calls
  into outside crates (hashing, bcrypt, random draws, URL parsing, JWT
  signing, ZIP writing, the clock, `DashMap`) sit behind small trusted
  wrappers whose doc comments say what is assumed.
- `tests/` runs the library on concrete values.
- `app/` is the service binary: it reads the environment and the clock,
  and hands the library plain values.
