# weread_desktop

The core of 书迹, a desktop tool that turns WeRead highlights and notes into
Markdown files, HTML reading reports and ima knowledge-base notes, and that
lets an AI assistant read the user's reading data with the user's consent.

- `src/` is the library, verified with Verus: reading the WeRead and ima
  answers, the settings, the export formats, the report jobs prepared for
  local agents and the checks of what they write back, the consent and data
  gateway rules of the chat, the steps of a chat run (what a model turn, a
  read, a consent answer and a second read lead to), and the small web
  server's routing. Each public function states its result in `ensures`;
  the `law_*` proof functions state what holds across calls.
- `tests/` runs the library on concrete values.
- `app/` is the unverified shell around it: files, HTTP, the model's
  streamed answers, the channels through which the window cancels a
  run, answers a question or a consent prompt, and local agents, which it
  finds and starts through `agent_cli_bridge`, a crate of the desktop
  application's own workspace that this crate does not depend on.
