# quadcopter

Flight firmware for an STM32F411 quadcopter: IMU (ICM-42688-P), GPS
(NEO-M8N), SBUS receiver (FrSky X4R), SPI flash (W25Q128JV), four ESC
outputs and a USB serial command line.

- `src/` is the verified library (Verus): SBUS frame decoding, NMEA sentence
  assembly and RMC/GGA field extraction, register and instruction frames of
  the IMU and the flash, the IMU start-up sequence and sample decoding, ESC
  pulse limits, and the command-line replies. Each public function carries a
  contract; the `lemma_*` proof functions state the library's laws.
- `app/` is the firmware around it: the RTIC application, the bus transfers,
  and everything that computes in floating point (unit scaling, percent and
  degree values, the PID controller, float parsing and printing).
- `tests/` exercises the library on concrete inputs.
