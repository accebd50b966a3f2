# dirt

A terminal file explorer with Miller columns, bookmarks, profiles, local and
global search, a details panel and image previews.

- `src/` is the verified library: the explorer's state machine (`app_*`),
  directory listings and their sorting (`entries`), path and text helpers,
  the configuration model and its TOML healing (`layout`, `settings`,
  `toml_doc`, `theme`, `keymap`), the thumbnail queue (`thumbs`) and the
  view models that say what each panel shows (`views*`, `overlay`). Every
  function carries a contract that Verus proves; calls into `dirs`, `sha2`,
  `toml` and std's path functions stand behind small trusted wrappers whose
  doc comments say what is believed of them.
- `app/` is the program around it: the terminal loop, file system access,
  drawing with `ratatui`, images through `image` and `viuer`, git status
  and the trash.
- `tests/` runs the library on concrete inputs.
