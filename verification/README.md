# litebox_test_harness

A harness that tests a sandbox from the inside: a coordinator spawns a tree of agent
processes, sends them commands over pipes, and judges what comes back. The decisions are a
library verified with Verus; the system calls are ordinary Rust around it.

## The library (`src/`)

| Modules | What they decide |
| --- | --- |
| `text`, `number` | text and number operations with exact contracts |
| `agents`, `protocol`, `routing` | the tree of agents, the commands and answers, and the way a command takes through the tree |
| `agent`, `agent_run`, `inherit` | what an agent does with a command and over many lines, and the listening sockets that a child inherits |
| `script`, `stages`, `plan_basic`, `plan_node`, `plan_vscode` | scripts of tests: what is sent next, what an answer means, and the scripts themselves |
| `registry`, `asks` | test plans, and the arguments of the handlers that they name |
| `fork_plans`, `fork_verdicts`, `fork_runs`, `fork_probes`, `wait_status` | tests that fork and exec |
| `clone3`, `clone_runs` | tests of `clone3` and of sessions set up after a clone |
| `broker`, `echo`, `dns` | tests of listeners, datagrams, ICMP echoes and name resolution |
| `epoll`, `spin`, `observers`, `epoll_plans`, `epoll_runs` | tests of readiness, and the processes they run on |
| `eventfd`, `counter_runs` | tests of event counters |
| `common`, `canary`, `concurrent`, `df_parent`, `program_runs` | tests that run programs, and the small programs themselves |
| `file_tcp`, `file_runs` | tests of files beside connections |
| `random` | tests of random bytes |

Functions whose names begin with `law_` are theorems about the library as a whole; they
relate the specification functions that the contracts speak of.

A module that ends in `_runs` says of each registered test, by its position in the list of
plans, what it asks and how the answers are judged.

## Around it

`app/` holds the processes: the coordinator, the agents, the probes that make the system
calls, and the JSON form of what travels between them. `tests/` runs the library on concrete
values.
