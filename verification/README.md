# low_power

Low-power support for STM32 microcontrollers, written and verified in Verus.

A sleep enters the deepest stop mode that the running peripherals permit, and is a plain `WFI`
where none is permitted. The library decides; it touches no hardware. `sleep::sleep` and
`sleep::resume` hand out batches of operations (`op::Op`), and whoever performs a batch hands back
what it reported.

| module | what it holds |
| --- | --- |
| `chip` | chip families, build options, stop modes |
| `register`, `pac` | registers, the edits made to them, the field accessors of `stm32-metapac` |
| `op`, `state` | operations, replies, and what is remembered between them |
| `gpio`, `rcc` | ports and peripheral clocks: saved, turned off, written back |
| `platform` | stop flags, entering stop mode, leaving it |
| `sleep` | one sleep from the request to the return |
| `dump` | a look at the registers that matter in stop mode |
| `batch` | what each batch asks, and that performing it gives the reply waited for |
| `trace`, `laws`, `restore` | what holds of every sleep, proved |

`app/` performs the operations on an STM32L0. The other drivers of the system are asked through its
`Board` trait.
