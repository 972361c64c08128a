# deepseek_balance

A Windows system-tray application that shows the balance of a DeepSeek API account
on its tray icon (e.g. `¥12.34`), polls it on a configurable interval (1 minute to
1 hour, 5 minutes by default), keeps the API key encrypted in the registry and starts
at login.

- `src/` is the library, verified with Verus: the choice of the balance entry
  (CNY, then USD, then the first listed), the texts shown on the icon and in the
  tooltip, the interval rules, the settings dialog's decisions, UTF-16 buffers for
  Win32, and the main window's message handling as a state machine (`TrayApp`) that
  returns the actions the window must carry out.
- `app/` is the Win32 program around it: window and message loops, the tray icon's
  drawing, the settings dialog, the registry and DPAPI, and the HTTP request.
- `tests/` exercises the library on concrete values.
