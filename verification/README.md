# dustmaps_api

A dust-extinction query service (CSFD and Bayestar19 E(B-V) over HTTP).

- `src/` is the verified library: HEALPix resolution parameters
  (`geometry`), the CSFD shape and pixel-range checks (`csfd`), the
  Bayestar lookup-table checks, footprint lookup and distance-modulus bin
  search (`bayestar`), and the trusted views of `.npy` data (`npy`, `paths`).
- `app/` is the server: file mapping, the floating-point sky geometry and
  interpolation, and the axum routes.
- `tests/` exercises the library on concrete values.
