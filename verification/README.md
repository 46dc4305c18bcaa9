# carbide

The core of a retained-mode GUI toolkit, verified with Verus: positions and
sizes, input events and the handler that turns raw window input into widget
events (clicks, multi-clicks, drags, folded moves and scrolls), font families
and font matching, canvas contexts and the paths they draw, convolution image
filters, environment colour states, and the sizing and placing of stacks.

Numbers of the drawing model are IEEE 754 binary64 and binary32 values. The
library holds them as their encodings (`Scalar`, `Scalar32`), compares them on
the encodings, and does their arithmetic through `rustc_apfloat`; the
contracts name each result of that arithmetic.

## Layout

- `src/` the verified library
  - `scalar.rs` number encodings, comparisons, and the arithmetic they get from
    `rustc_apfloat`
  - `position.rs` positions, sizes, rectangles and their operators
  - `event.rs`, `event_handler.rs`, `table.rs` input, widget events, and the
    event handler with its tables of pressed keys and buttons
  - `font.rs` font families and best-fit matching
  - `context.rs` the canvas context and the paths its steps draw
  - `filter.rs` convolution filters
  - `color.rs`, `environment_color_state.rs` colours and environment states
  - `stack.rs` stack layout: spacing, sizing order, sizing and placing
  - `window_loop.rs` the decisions of a window's event loop
  - `primitives.rs`, `image.rs`, `state_sync.rs`, `widget_event.rs` the
    frame of a root widget, and widget traits
  - `laws.rs` properties that span several operations
- `tests/` tests run against the compiled library
- `app/` host-side glue: logging, asset lookup, the renderer's projection
  matrix, conversions to `rusttype` and `lyon` types, and the drivers that run
  the stack layout over a widget tree
