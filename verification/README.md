# dfa_visualizer

The verified core of a system-tray application that shows a World of
Warcraft character's Data for Azeroth rankings.

- `src/` is the library, checked by Verus:
  - `numfmt`: decimal formatting with thousands separators, ranks, integers;
  - `catalog`: ranking categories, settings lists, professions, class and race names;
  - `config`: the settings and when they name a character;
  - `profile`: assembling the dashboard profile and character summaries from
    the service's answers, and the service's addresses;
  - `import`: reading the account's characters from the character page's title;
  - `watch`: decisions of the refresh loop, the update watch and the game-mode title;
  - `tray`: tray menu, clicks, window placement and tooltip;
  - `text`: character-level string helpers.
- `app/` holds the window system, network and file code around it (Tauri,
  reqwest, serde, dirs, sysinfo, tokio).
- `tests/` runs the library on concrete values.
