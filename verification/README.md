# Sidegate popup

The tray popup of a GlobalProtect VPN client: one big switch, a tray icon, and the pages around
them. The VPN work itself is done by a core that is linked in as a C library and driven with
tab-separated lines.

`src/` is the verified library. It holds what the popup decides, with contracts and laws checked
by Verus. It opens no window and draws nothing; of the window system it has only numbers, those
of a few messages and of one error, which `shell` and `launch` take from `windows_sys`:

- `text`, `utf16`: splitting, stripping and trimming texts, and the UTF-16 that Windows wants;
- `protocol`: commands to the core, its status lines, and the session that they add up to;
- `pages`: which page is shown for a status, what stands on it, what a click sends, when the popup
  hides and the tray icon changes;
- `shell`: where the popup appears, what window messages and clicks on the tray icon lead to, the
  tooltip, and how long quitting may take;
- `icon`: the pixels of the tray icon;
- `fonts`, `launch`: which system fonts make up a family, and what the command line asks for.

`app/` is the program around it: egui, Win32 and the core's C functions. `tests/` runs the library
on concrete values.
