# fluid_lab

A verified core for a compressible-flow observatory (Newtonian and special
relativistic hydrodynamics on a Cartesian grid) and a particle (SPH) fluid
program. The library `src/` is checked by Verus; `app/` is the runnable
front end, which keeps the floating-point solvers and the I/O.

- `layout`, `ghost`: cell storage order, ghost cells at the box boundary and
  the two cells on either side of each face of the flux sweep.
- `stepping`: the retry policy of a time step and its tallies.
- `control`: decisions of the simulation worker thread.
- `spatial`: the particle neighbour grid (bucket lists per cell).
- `cases`, `observatory`, `physics`, `launch`, `vtk`: experiment catalogue,
  display choices, command-line options and export file lines of the
  observatory.
- `sph`, `render`, `ui`, `cli`, `benchmark`: catalogue, arguments and
  benchmark bookkeeping of the particle program.
- `text`, `numeral`, `clock`: decimal numerals, text comparison, and the
  standard-library calls the rest relies on.
