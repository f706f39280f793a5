# corgiterm

The logic of a terminal emulator with an AI assistant, verified with Verus.

`src/` is the library. Each public function states in its contract what it
returns or changes, over mathematical views of the data (`Seq`, `Map`,
integers), and Verus proves the code against it. Properties that relate
several operations stand as public proof functions named `law_*`.

- Terminal model: cells, the grid with its scrollback, alternate screen and
  saved cursor (`cell`, `grid`), the escape-sequence parser and emulator
  (`ansi`, `parser`, `emulator`, `terminal`, `engine`), selections and hints.
- Images: Kitty and Sixel graphics commands (`images`).
- Configuration: settings and their defaults, SSH hosts, themes, shortcuts,
  snippets with their `{{name:default|hint}}` placeholders (`config`, `ssh`,
  `themes`, `shortcuts`, `snippets`).
- The AI assistant: providers, conversations, the command history it learns
  from (frequent commands, preferred alternatives, command sequences) and
  the prompts it sends (`ai`, `ai_history`, `ai_learning`, `conversation`,
  `models`, `mcp`, `safe_mode`); the providers' model listings turned into
  model lists, the requests in each provider's form and the streamed
  answers read event by event (`model_lists`, `providers`).
- Sessions and recordings (`session`, `recording`), ASCII art fonts
  (`fonts`, `ascii_art`).

Calls into outside crates (regex, unicode-width, base64, uuid, semver,
chrono) and into the parts of std that Verus does not specify go through
small trusted wrappers whose doc comments say what is assumed of them.

`tests/` runs the library on concrete values. `app/` holds what cannot be
verified: file and network I/O, the async MCP server, serde copies of the
library's types (and the providers' JSON read into the library's plain
values), and the computations that need floating point.
