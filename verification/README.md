# glcim

A GitLab CI monitor for the terminal, with its logic in a library that is proved with
Verus.

* Explore pipelines and their jobs using an interactive terminal interface.
* Automatically expand the job list from child pipelines.
* Open the log of a job in the terminal, by a command of your own.
* Show the difference in job status between two pipelines.
* Wait for a pipeline, list merge requests, report to a file.

## Layout

`src/` is the library; each module states what it does in contracts and proves it.

| Modules | What they hold |
| --- | --- |
| `text`, `names`, `branch`, `timestamp` | texts, the order of names, points in time |
| `model`, `modes`, `state`, `config`, `query`, `error` | the data |
| `updatable` | data that is fetched again, and the selection in a list |
| `jobs`, `diff`, `bridges` | the jobs of a pipeline and of its children; two of them compared |
| `worker` | the thread that talks to the server, as a machine |
| `keys`, `monitor`, `display`, `screen`, `refresh` | the monitor: actions, drawing, reports, turns |
| `wait`, `alias`, `command`, `pattern` | the commands that show nothing, or look for what to show |
| `laws` | what holds of the monitor as a whole |

A machine tells what to do next and is told what came of it. `app/` does what it is told:
it asks the server, draws, runs commands, reads keys and the clock.

What is taken on trust of other crates stands beside its use: the text and the difference
of points in time (`chrono`), the walk over two sorted lists (`itertools`), patterns
(`regex`), the form of a project's name in a path (`gitlab`), and the clock and the lossy
decoding of bytes of the standard library.
