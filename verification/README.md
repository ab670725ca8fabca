# maglev

Controller firmware for a magnetic levitation board (STM32F401, Embassy).

- `src/` is the verified library: the push-button debouncer, the
  front-panel height editor driven by a rotary encoder, the mapping of
  balance commands onto the four coil PWM channels, and the request and
  reply frames of the TOF050F distance sensor (Modbus RTU).
- `app/` is the firmware around it: peripheral set-up, the Embassy tasks,
  the OLED display, and the floating-point signal chain (Hall-sensor
  calibration, low-pass filters, PID regulators).
- `tests/` exercises the library on concrete values.
