# libboard_zynq

Support code for the Xilinx Zynq-7000 (ZC706 board) whose logic is proved
with Verus.

- `src/` is the verified library: register encodings and decodings (SLCR,
  GIC, DDR controller, SD host, quad-SPI, device configuration, PHY
  registers), clock and PLL arithmetic, the global timer, the Ethernet
  descriptor rings, the flash transfer plan, the I2C bit timing, the
  `CONFIG.TXT` format and the ps7 initialisation tables. Register accesses
  are modelled by `regs::Register`, which records the values written; where
  the order across registers matters, a register group also keeps a
  journal of (offset, value) writes that the hardware side performs in
  order, and SLCR writes are bracketed by `slcr::SlcrSection`. Sequences
  that wait on the hardware (SD card initialisation, bitstream loading, the
  flash write-enable bracket, the PHY probe) are step functions from state
  and event to next state and action. Bit fields go through the `bit_field`
  crate behind the wrappers of `src/bits.rs`.
- `app/` is the hardware side: volatile register access, the loops that
  wait on the hardware, the executor, the embedded-hal timer traits and the
  drivers that sequence the library's decisions.
- `tests/` runs the library on concrete values.
