# hotkeys

The hotkey catalog of a tiling window manager, verified with Verus.

- `src/catalog.rs`: `HotkeyAction`, the ordered catalog `hotkey_catalog`, and
  its specification `catalog_spec`; ids and default keys are proved distinct.
- `src/command.rs`: `IpcCommand` and `command_for_action`, the mapping from
  action ids (including aliases and numbered workspace ids) to commands.
- `src/bindings.rs`: `default_bindings_map`, the key-chord -> action-id map.
- `src/template.rs`: `render_template_block`, the `[hotkeys]` lines of the
  generated config template.
- `src/text.rs`: string equality, prefix stripping and `u8` parsing.
- `src/laws.rs`: properties that tie these together: which ids are
  accepted, distinct catalog actions name distinct commands, the map has one
  entry per bound action, and the template is the sections of the bound
  actions, with each default binding's line exactly once.
- `app/`: the serializable copy of `HotkeyAction` and the floating-point forms
  of command parameters.
