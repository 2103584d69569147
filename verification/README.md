# betrusted_ec

Embedded controller logic of the Betrusted device, with its behaviour stated in
`requires` / `ensures` contracts and proved by Verus.

- `src/` is the verified library: the IPv4/UDP/DHCP network stack (`net/`), the
  packet queue, the COM bus command handling, interrupt and framing rules, the WF200 host-side
  bookkeeping, the I2C and SPI transaction plans, and the register-level decisions
  of the charger, gas gauge, backlight, IMU, gyro and USB-C drivers. Public proof
  functions named `lemma_*` state the properties that span several calls.
- `tests/` runs the library on concrete values.
- `app/` is the host-side build tool and the thin hardware glue that performs the
  register accesses that the library plans.
