# architect_api

Wire types and trading rules of the Architect API, written in Verus with
their behaviour stated in contracts and proved.

- `src/` — the verified library: symbology (product, tradable product and
  series names, CFI codes, tick sizes, snapshot-or-update maps), orderflow
  (order ids, order types, statuses, modifications, account permissions),
  marketdata (candle widths, tickers, requests), account summaries, and the
  decimal, integer text and string operations they are written with.  The
  laws of tick walking (moving up and back down, rounding, distances) are
  public proof functions in `symbology::execution_info` and
  `symbology::tick_ladder`.  Calls into `rust_decimal`, `uuid`, `chrono`,
  `chrono-tz` and `regex` stand behind small trusted wrappers whose
  contracts name what the call returns.
- `tests/` — tests on concrete values, run against the compiled library.
- `app/` — the gRPC codecs that `tonic` calls and the serde forms of the
  wire types.
