# fastgen

`fastgen` scaffolds cloud-native FastAPI monorepos: workspaces, services,
external services (databases, brokers), plugins, and AI-generated services.

- `src/` is the library, written in Verus: every decision the command makes
  (which provider the settings select and with which HTTP timeout, what each
  prompt says, each step of an AI generation run from plan to validation,
  how `pyproject.toml`, `docker-compose.yml` and `.env` are created and
  updated, how the dev UI reads its JSON requests and the compose file and
  what it answers, what each plugin target asks for, how plugin files are
  decoded) with its contract, and laws such as "registering a service twice
  changes nothing" or "files are generated only for an approved plan".
- `app/` is the command around it: argument parsing, files, HTTP, the dev UI
  server, template rendering, the interactive prompts, and the serde copies
  of the library's types.
- `tests/` runs the library on concrete inputs.
