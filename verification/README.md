# EchoPup

Voice dictation for the Linux desktop: hold or press a hotkey (or a desktop
shortcut running `echopup trigger toggle` under Wayland), speak, and the
recognised text is typed into the focused window, optionally corrected by an
LLM and by a homophone table.

## Layout

- `src/` — the `echopup` library, verified with Verus. It holds the rules of
  the program: configuration defaults, the hotkey and trigger state machine,
  streaming draft/final text commits, homophone correction, the LLM pause
  policy, the menu and its settings, tray texts and states, GNOME shortcut
  planning, model download decisions (ranges, retries, resumable files,
  parallel parts), typing back ends and their fallbacks, and the service's
  paths and start/stop checks. Every public function carries a contract; the
  properties that span several calls are stated as `law_*` proof functions.
- `tests/` — tests of the library.
- `app/` — the `echopup` program: command line, files and processes, HTTP,
  the microphone, the speech recogniser, the keyboard, the hotkey listener
  and the tray. It asks the library for every decision.
