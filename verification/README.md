# pd200x

Driver logic for the Maono PD200X USB microphone, verified with Verus.

- `src/` is the verified library: the register map (`protocol`), the HID
  report layouts and their checksum (`packet`), the register writes behind
  each setting and the decoding of register values (`control`), the
  parametric EQ registers (`eq`), and the decisions of the query loop
  (`query`). Each public function states its result exactly; the proof
  functions (`lemma_*`) state the laws that tie them together, such as a
  command report parsing back to its register and value, or a setting
  reading back as written.
- `app/` opens the device with `hidapi`, moves reports over USB, keeps the
  query clock, and holds what needs floating point: `EqBandParams` with its
  dB gain and Q, their firmware encoding, and the EQ presets.
- `tests/` runs the library on concrete values.
