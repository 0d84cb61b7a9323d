# unifly

The display and policy logic of a terminal client for UniFi network
controllers, written in Verus.

- `src/` is the verified library: firewall policy merging, terminal
  capability detection, refresh scheduling, the chart image cache, the
  events screen, the heatmap and switch faceplate layouts, sub-cell column
  painting, colour quantisation, JSON redaction, VPN setting queries, the
  VPN table rows, and the statistics period selector. Each public function states its result in its `ensures`;
  the cross-function laws are public proof functions named `law_*`.
- `app/` holds what Verus does not see: terminal setup, environment reads,
  serde and ratatui glue, the image picker and the floating-point gradients.
- `tests/` runs the library on concrete values.
