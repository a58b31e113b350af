# rustbox

A Fluxbox-style X11 window manager whose decisions live in a library
verified with Verus.

- `src/` is the library. Every function in it has a contract that Verus
  proves: the geometry of frames, menus, the toolbar, the slit and the
  system tray; the routing of X events to actions (`screen::plan_event`);
  moving and resizing windows within the work area and the size hints;
  the window list with its focus and stacking orders; workspaces; the
  parsers of the `keys`, `menu`, `init` and theme files; the notification
  queue, its rules and its D-Bus method dispatch; remote commands and the
  command line. Calls into `regex` and `image` go through small trusted
  wrappers whose contracts say what those crates document.
- `app/` is the program around it: it connects to the X server, reads
  files, turns X events into the library's events, performs the actions the
  library chooses, and does the drawing and the floating-point shading that
  the library does not hold.
- `tests/` exercises the library on concrete inputs.
