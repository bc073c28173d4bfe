# lidar-fill-state

Firmware for a fill-level sensor: an ESP32-C6 with a VL53L8CX distance sensor (8 x 8 zones), a
WS2812 status LED, a file system in flash and a small web server.

`src/` is the verified library. It decides and computes; it does no I/O.

| Module | What it holds |
|-|-|
| `led` | the flashes for each state of the device, and the pulses that carry a colour |
| `sensor` | the order of the calls to the sensor, and the picture of what it measured |
| `bus` | transfers to and from the sensor's registers, cut into pieces |
| `wifi` | when to connect again, and the names of what the driver reports |
| `http` | which request is answered how; taking a file in and giving it out, step by step |
| `storage` | addresses in the flash chip, and the start of the file system |
| `system` | the state of the device, the share of the heap in use, the network seed |
| `build_config` | the build settings in `wifi.env` and `partition-table.csv` |
| `text`, `bounded`, `ticks` | text, texts of fixed capacity, durations |

Tasks that wait for something are functions from a step and what it came back with to the next
step. `app/` performs the steps: on the board it is the firmware, on the host the build step that
compiles the sensor's C driver and passes the settings on. Functions named `law_` state what holds
of several steps or calls together.
