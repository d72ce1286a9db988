# juicebox

JuiceBox is a 2D fluid sandbox (a PIC/FLIP solver on a staggered grid, drawn with Bevy and
egui). This crate is its verified core: the grid layout and lookup bookkeeping, and the
decisions of the program that work on integers, booleans and strings, proved with Verus.

- `src/simulation/` — the grid layout (size, cell side, cell types), the spatial lookup table
  that files particle ids by cell, the solver's integer settings, lookup indices, cell solid
  modifiers and the collision pairs of a cell; with laws on filing particles and on cell types.
- `src/ui/` — the tools, their order and names; what the drop-down menus ask for; which action
  a frame's input asks for and which cursor to show.
- `src/events.rs` — what a play/pause/step event does.
- `src/util.rs` — the clock, the xorshift generator, the window title and the window icon.
- `src/file_system.rs` — save keys from picked file paths.
- `src/juice_renderer.rs` — which cells are drawn solid, the checkerboard colouring and the
  colouring rule picked in the interface.
- `src/error.rs` — the simulation's errors and their messages.

`app/` is the Bevy program around the library: the floating-point solver (particle/grid
transfer, incompressibility, collisions), rendering, the egui interface, and saving/loading.
