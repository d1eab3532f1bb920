# vm_deployer

Deploys virtual machines through the Fluence API in bulk and one by one, follows each machine
until it is up, compares the two approaches and deletes the machines in the end.

- `src/` is the library. It holds every decision of the program, each with a contract that Verus
  proves: what is asked of the API (`client`), how a machine is followed (`polling`, and `history`
  over any number of rounds), how the two approaches run (`worker`), what is reported
  (`analysis`), what is deleted (`cleanup`), what goes to the log (`logging`), what the
  configuration means (`config`) and how a run is put together (`run`). `deployment` holds the
  data that they share; `text`, `clock` and `json` hold the basics. Functions named `law_...` state what holds across several of these.
- `app/` is the program around it: files, environment, HTTP, threads and the arithmetic on
  floating point numbers.
- `tests/` runs the library on concrete values.

What is taken on trust stands in `text`, `clock`, `json` and `client`, each time with the name of
the function of the standard library or of another crate and what is claimed of it.
