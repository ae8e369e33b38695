# pz-ime-guard

The companion tool of the MinidoracatIMEGuardFor42 mod for Project Zomboid on
Windows. While the game is in front and the player is not typing, it keeps the
game on a keyboard layout that delivers the movement keys; while typing, it
brings the player's input method back; after leaving the game, it gives the
desktop its own layout back, if it really switched the game away from it.

- `src/` is the decision logic, verified with Verus: every function carries its
  contract, and the properties the tool promises are proved as lemmas.
- `app/` is the Windows program around it: tray icon, menu, window and file
  access, the start-at-logon shortcut's shell calls.
- `tests/` runs the library on concrete scenarios.
