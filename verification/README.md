# Iscogram

An image-sharing site. Visitors register, sign in, post images and comment on them; users with
authority ban others.

- `src/` is the library, verified with Verus. It decides what becomes of a request: which
  statement the database is asked, how the sessions change and what the reply is. Each function
  states its result in its contract; what holds across functions is stated by the proof functions
  whose names begin with `law_`.
- `app/` is the server. It reads requests, runs the statements, hands their outcomes back to the
  library, and sends the replies.
- `tests/` runs the library on concrete values.

A request that needs the database is handled in steps. A function of the library gives a `Step`
(or a type of its own for the request); a `Query` in it is run, and the next function takes the
outcome. Putting the posts of a page together takes many questions: `timeline::MakePosts` is a
machine whose states know their question and go on with the answer.

The library leans on outside crates for random bytes, SHA-512, hexadecimal, time formats, header
values and form decoding. Each such call stands in one small function whose contract is believed;
its comment says what is claimed.

The database is read and written in UTC; the site shows the time nine hours ahead of it.
