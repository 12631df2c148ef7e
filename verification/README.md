# rust_rtl8139

A verified RTL8139 Ethernet driver and the kernel abstractions it uses.

- `src/error.rs`: kernel error codes (`Error`, `from_errno`, `to_result`).
- `src/irq/request/`: IRQ flags, handler traits, registrations and the
  callbacks that hand C return values back.
- `src/net/dev/`: the network device (`Device`), packet buffers (`SkBuff`),
  device operations and their callbacks, device flags.
- `src/rtl8139/`: the driver. Register reads are passed in as values and the
  register writes come back as `RegisterWrite`s in order; the transmit ring,
  receive-buffer parsing, interrupt handling decisions, opening, probing and
  MAC formatting are verified.
- `app/`: glue that performs the register I/O and DMA copies, and runs the
  polling and receive loops around the library's decisions.
- `tests/`: tests of the library on concrete values.
