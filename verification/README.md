# balamut

The server side of the Balamut game: players register, log in with a
password hash, look each other up, change their own profile, and are
recognised again by a session cookie.

`src/` is the verified library:

- `filters` routes a request to the API: which handler answers it, with the
  nickname, session cookie or credentials taken from the request, or which
  rejection answers it when no route does. Its contract is the route table
  itself, with the priority rules by which rejections of alternative routes
  are combined.
- `handlers` holds each handler as a small state machine: it names the
  database statement to run next, takes the reply, and ends with the answer.
  Session hashes and cookies are made here.
- `db` is the set of statements, with their SQL text and parameters.
- `tables` models the `players` and `sessions` tables and what each
  statement does to them, runs the handlers on that model, and proves the
  round trips and invariants across handlers (register then info, who-am-I
  or login; logout and update repeated; sessions never reactivated).
- `models` holds the player records; `paths` and `text` are the path
  splitting and text helpers the router uses.

`app/` is the program around it: the HTTP server, the static pages and
images, the SQLite connection that runs the statements, and the JSON forms.
