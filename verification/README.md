# axetui

A terminal dashboard for a Bitaxe miner, on a verified model.

It connects to a live Bitaxe over HTTP and WebSocket, then displays the
hashrate history, meters of power, heat and fan, the status of the device, and
its log.

## Layout

- `src/` is the model, in Verus, with contracts: what the loops do next, what
  the panes say, and what is asked of the device and of the screen.
  - `text`, `log_line`: characters, clipping, and making log lines printable.
  - `reading`: measured values by their IEEE 754 encoding, their order and
    rounding.
  - `metric`: difficulties, which the device gives as JSON of any kind.
  - `snapshot`, `state`: what the device reports, and what messages do to the
    dashboard.
  - `poller`, `log_stream`, `ui_loop`: the three loops, each as a step from an
    event to the next action.
  - `theme`, `panes`, `meters`, `layout`: what is shown, in which colours, and
    where.
  - `config`: where the device is found.
- `app/` performs the actions: terminal, widgets, network, threads, decoding,
  and floating-point arithmetic and formatting.
- `tests/` runs the model on concrete values.

## Running

The first argument is the address of the miner; without one it is read from
`BITAXE_URL`, and else taken to be `http://bitaxe.local`.

- `q`: quit
- `r`: refresh immediately
