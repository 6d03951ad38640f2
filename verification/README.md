# Carnival

An instanced Overwatch ladder. A web site lets players register, log in and
queue by role; when a queue holds enough players it pops a match and splits
them into two teams. A match server drives the game client on the desktop to
set up a custom lobby for each match.

## Layout

- `src/` is the library, verified with Verus:
  - `text.rs`: string search, replacement, splitting, decimal printing and
    parsing over Unicode scalar values.
  - `chains.rs`: a table of named action chains.
  - `carnival_matchserver/`: planned mouse and keyboard input, action chains,
    the maps, the menus and how they are told apart from the client's memory,
    the socket conversation with the web site, and the memory scan helpers.
  - `carnival_web/`: the queue and team assignment, sessions, the form
    endpoints' decisions, the HTML components, the notification socket and
    the match server hub.
  - `client/`, `matchserver/`, `web/`: the first desktop client, match server
    settings and web site.
- `app/` holds the programs: the desktop and Windows API calls, the database,
  the HTTP server, the sockets and the files they read and write.
- `tests/` exercises the library on concrete values.
