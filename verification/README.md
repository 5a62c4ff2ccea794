# arrow_arithmetic

Verified arithmetic kernels for primitive arrays with nulls: `add`, `subtract`, `multiply`,
`divide`, the general `math_op` and `math_divide`, and the register-at-a-time `simd_math_op` and
`simd_divide`.

- `src/array.rs`, `src/bitmap.rs`: arrays as windows on shared values, with packed validity bits.
- `src/datatypes.rs`, `src/identities.rs`: the element types and their identities from `num`.
- `src/arithmetic.rs`, `src/vectorized.rs`, `src/simd.rs`: the kernels and their registers.
- `src/integer.rs`, `src/laws.rs`: what the kernels compute as integers, and the laws that relate
  them.
- `app/`: floating-point element types, which are used with the kernels but not verified.

The kernels use the plain operators. Where a sum, difference or product of two stored values is
not representable, or a quotient that would be computed is not, the call is outside the contract.
