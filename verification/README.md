# tf2_trainer

A Team Fortress 2 trainer, built as a Windows DLL, whose decision logic is
verified with Verus.

- `src/` is the verified library:
  - `netvars`: the netvar table, built from the game's receive tables and keyed
    by a weighted character sum of the table and field names.
  - `sdk`: condition and weapon numbers, snapshots of players and weapons, and
    the address arithmetic for fields and virtual function tables.
  - `hooks`: the input rules applied to each user command (jump only on the
    ground, attack when a knife can backstab).
  - `esp`: which players get a box, and the height and colour of their health bar.
  - `scanner`: byte-signature patterns and the search for them in a module image.
- `app/` is the DLL itself: attaching, hooking with MinHook, reading the game's
  memory through its interfaces, the floating-point box geometry and drawing.
  It builds for `i686-pc-windows-msvc` only.
- `tests/` exercise the library on concrete values.
