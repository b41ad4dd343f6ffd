# servo_robot_board

Verified logic of a servo robot power and sensor board, written in Verus.

- `src/` holds the board's rules and data handling with their contracts: the
  BQ24725 charger, BQ40Z50 fuel gauge, HUSB238A PD sink, INA219 power monitor
  and MPU6500 IMU drivers (as register-level state and byte frames, without the
  bus itself), the charge manager, over-temperature and over-current protection,
  frame encoding and decoding, the ring buffers, the OTA image format and
  bootloader decisions, the virtual FAT disk used for firmware drag-and-drop,
  the configuration store and the board event.
- `app/` drives the buses through `embedded-hal`, converts readings that need
  floating point, and feeds the results to the library.
- `tests/` runs the library on concrete values.
