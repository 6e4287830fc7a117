# rusty-app

A desktop database management tool. Its logic lives in a library that is
verified with Verus; a thin iced application around it paints the state, runs
podman, reads and writes the settings file and tests connections.

## Layout

- `src/` — the verified library:
  - `app_state.rs` — every decision of the application, as a function from
    state and event to next state and the outside work to do next;
  - `components/` — server list, table list, properties, query editor tabs,
    results view and the connection form component;
  - `connection_form.rs`, `sqlite_connection_form.rs`,
    `oracle_connection_form.rs`, `validation.rs` — form data and the rules
    they are checked against;
  - `container/` — reading podman listings and turning development
    containers into connections;
  - `settings/` — settings, their validation, the settings manager and the
    logging configuration steps;
  - `views.rs`, `main_panel.rs`, `menu_bar.rs`, `left_panel.rs`,
    `connection_list.rs`, `connection_manager.rs`, `adapter_selector.rs` —
    view bookkeeping, tabs, menus and connection bookkeeping;
  - `text.rs`, `seq_util.rs`, `database.rs` — text handling, sequence helpers
    and the connection description.
- `tests/` — tests of the library.
- `app/` — the iced application.
