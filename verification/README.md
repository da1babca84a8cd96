# bms_lv_gui

A monitor for the low-voltage battery management system of a vehicle: it
listens on a CAN bus, shows the cell voltages and pack values in a window,
and enables the cell readings of the BMS while it listens.

- `src/` is the verified library:
  - `can_frame`: the cell-control data frame sent to the BMS;
  - `routing`: which displayed quantity each decoded BMS message feeds;
  - `session`: the listening session as a state machine (enable, receive
    while the window runs, disable), with its trace laws;
  - `readings`: the values the window keeps and how channel polls refresh
    them;
  - `layout`: every drawing call of a frame, with the grid laws.
- `app/` holds the window (raylib), the watch channels and task (tokio) and
  the socket I/O (socketcan), driving the library. It expects the CAN
  database of the board through the `BmsLvDatabase` trait.
- `tests/` exercises the library on concrete values.
