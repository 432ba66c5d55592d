# monitor_fw

Firmware logic of an STM32F103 patient-monitor board, written in Verus.

`src/` is the verified library:

- `cb` – the telemetry byte ring (overwrite-oldest policy, FIFO order).
- `mega_adc` – decoding of the ADS1298 and AFE4490 frames that the PLD
  collects, counter checking, and the start-up/reset procedures of the front
  end (`tables`, `cmd`, `afe`, `frame`).
- `pld` – the PLD start-up checks as a state machine, and its simple controls.
- `tps` – set-up of the power-management chip as a state machine.
- `button` – key debouncing; `adc` – accelerometer readings.
- `lcd`, `splash` – display procedures and colour conversion.
- `game` – the tilt-steered demonstration games.
- `cmd` – handlers of the host protocol's register tree.
- `bus` – the peripheral operations that procedures are expressed in.
- `port` – clock, pin, FSMC and ADC3 configuration as read-modify-write
  steps on the control registers, with what each leaves in its register.
- `embbox`, `sche`, `beeper`, `telemetry` – small utilities.

Peripheral procedures are returned as lists of `bus::BusOp` and
`port::RegUpdate`; `app/` carries them out on the hardware, reads the FIFOs
(header first, then the rest of a frame as `mega_adc` says), and runs the
interrupt handlers and the USB device class.
