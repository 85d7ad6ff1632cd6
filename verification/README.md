# fspy_windows

The decisions of a file-system spy on Windows, verified with Verus.

The spy starts a process suspended, gives it a token if one was asked for, loads a library
into it, leaves a payload there and lets it run. It can also give an AppContainer access to
the shared memory and to the files that both sides use. All of that is a conversation with
the operating system. The library in `src/` holds one side of it: each operation is a machine
that says which call comes next, takes the reply, and says in the end what is returned. The
host in `app/` makes the calls.

- `text`, `wide`, `ansi`: numbers and names in the forms that Windows takes
- `io_error`: the errors that the operations make themselves
- `acl`, `section`: granting access to files, kernel objects and sections
- `artifact`, `spy`: the library that is loaded into processes, and how a spy is set up
- `payload`, `token`, `inject`, `spawn`: starting a process
- `termination`: waiting for a process, and what it did
- `acl_laws`, `spawn_laws`: what holds of a whole grant and of a whole start
