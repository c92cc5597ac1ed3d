# auraed

The verified core of the Aurae runtime daemon. `src/` is a Verus library:
every function there carries a contract that Verus proves. `app/` carries the
library's decisions out on a machine (mounts, namespaces, cgroups, processes,
netlink, logging, the power button); `tests/` exercises the library.

Layout of `src/`:

- `text`, `validation`, `names`, `resources`, `cell_path`, `requests`,
  `commands`: names, paths, resource settings and request validation.
- `table`, `tables`: name-keyed tables and the cgroup/child/cell tables.
- `cells`, `executables`, `service`: cells with nested daemons, their
  executables, and the cell service that routes requests down nested cells.
- `workload`, `table_service`: cells whose executables run under the daemon,
  and the cell service built on two tables.
- `mounts`, `isolation`, `namespaces`, `nested`: mount plans, namespace
  sharing and the launch of a nested daemon.
- `proc_cache`, `cgroup_cache`, `observe`, `events`: the observe service.
- `context`, `runtime_config`, `logging`, `boot`, `network`, `power`,
  `sriov`: how the daemon starts in each context.

Public `law_*` proof functions state properties that span several
operations (for example, that unregistering a channel undoes registering it).

Tables keyed by cell or executable name (`table::NameTable`) are vectors of
(name, value) pairs whose view is a map from the name's characters to the
value. With `String` keys the `HashMap` specification in vstd gives too
little to prove what a lookup or an insertion does, so the table is kept as a
vector and searched in order; each operation states its effect on the map.

The library reaches the machine through traits that app/ implements (a
cgroup, a nested daemon, process launchers, a cgroup walker, a namespace pid
lookup). The traits carry no contracts. Instead, each contract that depends
on such a call states it with `call_ensures` over the trait method and the
arguments handed to it, for example that the cgroup's `add_task` was called
with the daemon's reported pid and answered `a`, and then states the outcome
for each possible answer. Verus only knows such a fact after the call is made,
so these clauses cannot be met without making the calls.

Random ids (the socket and root of a nested daemon) are drawn outside the
library and passed in.
