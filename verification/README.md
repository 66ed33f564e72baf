# gatt_server

The verified core of a BLE GATT server firmware for the STM32WB55, written
in Verus.

- `src/address.rs`: the public and static random device addresses derived
  from the chip identity, and the identity root keys.
- `src/event.rs`: the library's view of an event of the BLE stack, and the
  decisions taken on it (did a command complete, which handle did the stack
  give, how the event loop reports it).
- `src/command.rs`: the commands the host sends to the stack.
- `src/gatt.rs`: the GATT service (UUIDs, properties, default value), the
  handles the stack gives it, encryption key size validation, and the
  builders of the service, characteristic and value-write commands for any
  UUID and value, with the decision taken on the reply to "add
  characteristic".
- `src/init.rs`: bring-up as a state machine. `BleInit::start` gives the
  first command; `BleInit::advance` takes the outcome of the outstanding
  command and says what to send next, when bring-up is done, or why it
  stopped. The proof functions at the end of the file state what a whole
  run of bring-up does.
- `app/`: the embassy firmware that sends the commands over the mailbox,
  feeds the replies back, and runs the event loop.
- `tests/`: tests of the library on concrete values.
