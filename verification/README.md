# qspi

A driver for NOR flash memories on the QSPI peripheral of the nRF52840, with its
logic verified by Verus.

- `src/` is the driver without input and output. A request to `Qspi` (read, write,
  erase, custom instruction) gives an `Operation`, which names the action on the
  hardware that is due and takes what a read gave. `EraseRange` erases sector after
  sector, `Shutdown` takes the peripheral down, and `InterruptHandler` says what the
  interrupt does. Register layouts come from `nrf_pac`, through the functions in
  `src/fields.rs`, whose contracts are trusted.
- `src/laws/` holds what is proved of the driver as a whole: no operation returns
  while the peripheral may still use its buffer, no wakeup is lost, a range is erased
  sector by sector within the flash, deep power-down mode is reached before the
  peripheral is deactivated.
- `app/` performs the actions on the hardware, and implements the `embedded-storage`
  traits.
- `tests/` runs the driver against simulated registers.
