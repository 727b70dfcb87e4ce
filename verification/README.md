# moonlitt_effects

Audio effects (dynamics, EQ, reverb, convolution, modulation, distortion,
utility) split into a verified core and the floating-point processing
around it.

- `src/` — the library, verified with Verus: parameter layouts and mode
  enums, xorshift generators, ring buffers and their delay taps, the noise
  gate's state machine, crossover ordering, reverb and plate layouts,
  convolution partitioning and the oversampling plan. Contracts are stated
  over sequence models (`history()`, `tap`, `shifted`) and spec functions;
  the laws (read-back of delay lines, hysteresis and hold timing of the
  gate, ID layouts as bijections, partitions covering the response, ordered
  crossovers) are public proof functions.
- `app/` — the effects themselves (`Effect` trait): filters, envelopes,
  interpolation kernels, FFT convolution (`rustfft`) and the SIMD half-band
  filters (`wide`), driving the library's types for everything they decide on
  integers.
- `tests/` — executable tests of the library on concrete values.
