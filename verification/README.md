# embassy_ti_cc2650

Drivers for the TI CC2650 microcontroller, verified with Verus.

`src/` holds the drivers: GPIO, the UART with micro DMA, the general purpose timer, the
real-time clock, the time driver, power and clock management, the Sensor Controller and the
debug output. A driver does not touch the hardware. It takes what the hardware reads as plain
values and gives back the operations to perform, in order (`hw::Op`). Its contract says which
operations these are, and proof functions beside it say what they amount to: that one pin's
output changes and no other, that a sleep does not end early, that a line arrives in the buffer,
that a write leaves the DMA channel idle.

`app/` is the platform layer: it reads registers, calls the TI driver library, performs the
operations, and offers the drivers as `async` functions for Embassy.

`tests/` runs the drivers on concrete values.

What Verus takes on trust is the timer queue of `embassy_time_queue_utils`, declared at the top
of `src/time_driver.rs`.
