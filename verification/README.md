# kanidm_init

Bootstrap of a Kanidm identity server: it recovers the built-in
administrator, creates the first personal administrator and an OAuth2
application, and writes setup instructions with a credential reset token.

Layout:

- `src/` — the verified library (Verus). It holds the configuration model
  and its defaults, the error type with its conflict test and rendering, the
  reading of directory entries, the decision whether the setup was already
  done, the bootstrap as a state machine (`logic::BootstrapFlow`), the setup
  instructions' text, and the interpretation of an account recovery. Calls to
  `http`, `url`, `chrono` and `std::path` stand behind small trusted
  wrappers.
- `app/` — the program around it: command line, file reading and writing,
  the identity server's client and administration socket, and the loop that
  performs what the state machine asks for.
- `tests/` — tests of the library's public functions.
