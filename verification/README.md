# ganbare

The backend of a Japanese pitch-accent trainer: users log in with sessions kept in
cookies, editors add quiz questions and words with their recordings, and learners are
shown cards (questions and new words) scheduled by how well they answered before.

- `src/` is the library, verified with Verus: session identifiers and their hex form,
  account rules (e-mail and password lengths), the scheduling of questions after an
  answer, the choice of the next card, the parsing of the forms the front end posts,
  the routing decisions of the web front end, the JSON shape of a card, and password
  hashing and checking. Calls into outside crates (random numbers, hex and base64
  encoding, PBKDF2, regular expressions, Unicode normalization, time formatting) stand
  behind small trusted wrappers whose contracts say what the crates' sources promise.
- `app/` is the server around it: the PostgreSQL database through diesel and the pencil
  web framework with its templates and cookies.
- `tests/` runs the library on concrete values.
