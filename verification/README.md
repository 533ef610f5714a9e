# dock

The workspace dock of a terminal multiplexer, as a Verus library: a column
reserved along one edge of the tab area, the process each workspace runs in
it, and the keyboard and cursor routing between the dock and the panes.

- `src/geometry.rs`: cell rectangles (ratatui's `Rect::new` and `contains`
  behind trusted wrappers).
- `src/popup_size.rs`, `src/dock.rs`: dock width and the split of the tab area,
  with the laws that the split tiles the area and always leaves the tab a
  column.
- `src/dock_pane.rs`: opening and closing a workspace's dock process.
- `src/tab_surface.rs`: the tab surface's target, plan, hyperlinks and cursor.
- `src/shell.rs`: keyboard and cursor focus between the dock and the panes.
- `src/cli.rs`, `src/schema.rs`: the `dock` command line and the API types.
- `app/`: serde/schemars copies of the types, printing for the command line,
  and drawing the dock with ratatui.
