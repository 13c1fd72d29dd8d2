# Nyra

Nyra is a small always-on-top desktop window that rotates through configured
tips and, when a tip's global hotkey is pressed, runs the tip's TypeScript
reaction in a resident Bun process.

## Layout

- `src/` — the library, verified with Verus:
  - `job` — the configuration (tips, colors, validation), hotkey parsing and
    screen rectangles;
  - `sensory` — the scheduler that picks the tip on screen (earliest
    eligibility, then shorter interval, then configuration order) and a plain
    rotation;
  - `reaction` — the configuration of reactions, the resident runner's serving
    loop as a state machine, the one-run-at-a-time gate, the hotkey registrar
    and the SDK checks;
  - `launch` — the command line;
  - `overlay`, `perception`, `platform`, `sentry` — region selection and the task
    board, region and template checks, the recognition worker pool, the overlay
    controller's decisions, and sentries;
  - `text` — white space, ASCII case, decimal numerals and display widths.
- `tests/` — tests of the library.
- `app/` — the program around the library: command line and configuration
  file, the Bun process and its threads, the Windows hotkey thread, and the
  Bevy window that draws the tip.
