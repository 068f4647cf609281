# shellflip

Graceful process restarts in Rust, with the decisions verified by Verus.

A service is upgraded or reconfigured without disrupting existing connections: the process starts a
new instance of its program, hands a small amount of state over to it, and terminates once the new
process has started successfully.

* No old code keeps running after a successful upgrade (and inevitable shutdown of the old process)
* The new process has a grace period for performing initialisation
* Crashing during initialisation is OK
* Only a single upgrade is ever run in parallel
* It is possible for the user or process initiating the upgrade to know if the upgrade succeeded

## Layout

* `src/` is the library. It does no input or output: it takes in what happened and tells what to do
  next, and every function states what it does.
  * `restart_task`: the settings, and the task that serves restart requests
  * `child`: starting a new process, step by step
  * `environment`, `pipes`, `lifecycle`, `fdstore`: how the old and the new process find each other
  * `restart_coordination_socket`: the messages between a requester and a running process
  * `shutdown`: waiting for tasks to complete
  * `generation`: a small service that counts its restarts
  * `error`, `text`: failures, and numbers as text
* `app/` runs the library on tokio: processes, pipes, sockets, signals and timers.
* `tests/` holds the tests of the library.

What is promised of the library as a whole is stated and proved in the `law_` functions.
