# tcbee

The verified core of TCBee, a recorder and analyser of TCP flows.

- `src/` is the library, checked by Verus: TCP sequence arithmetic and the
  derived metrics (bytes in flight, usable send window, duplicate ACKs,
  retransmissions, loss episodes, sender limitation), the recorder's flow
  filter, flow table and terminal-view navigation, the output-file layout, and
  the state and decisions of the visualiser (series selection, input binding
  of plugins, flow and series filtering, colours, thinning of plotted series).
  Public proof functions named `law_*` state properties that hold across calls.
- `tests/` runs the library on concrete values.
- `app/` is the recorder's command line: it reads the options, builds the flow
  filter with the library and reports which tracers would be started.
