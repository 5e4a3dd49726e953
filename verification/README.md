# forme

A thin generic runtime between a language model and the workflow engine `graph_flow`.

A program names its own states and events; any type that can be shown, cloned and compared will
do. Each pair of them has a prompt. One step of the program looks the prompt up, builds context
from the recent events, asks the policy which tools may run, and asks the language model.

The library in `src/` is verified with Verus.

| module | what it holds |
| --- | --- |
| `kernel` | states, events, prompt keys, tool names, errors |
| `prompt_registry` | prompts in memory, and the decisions over prompts in files |
| `context_builder` | the trait of context builders |
| `policy` | which tools may run in which state |
| `rig_adapter` | the trait of language models, and a mock |
| `runtime` | the runner, and what a step is prepared to and comes to |
| `replay` | laws on repeating a step |
| `persistence` | keeping the state of a program |
| `workflow`, `graph_builder`, `graph_flow_adapter` | steps as tasks of a `graph_flow` graph |
| `qa` | checks of the library on a log of events |
| `tool_set`, `prompt_map`, `paths`, `text`, `show` | sets of tools, maps of prompts, paths, texts, showing values |

What the library takes from other crates and from `std` without proof stands in `workflow`,
`graph_builder`, `paths`, `show` and `qa`, each with a comment that says what is taken: making
actions, results and graphs of `graph_flow`, writing into its context, JSON of a list of texts,
joining and showing paths, writing into a formatter, and lower case.

A language model that is awaited, files, and the traits of `graph_flow` are in `app/`, which runs
the checks of `qa` as a program. `tests/` runs the library with the real crates.
