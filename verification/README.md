# web_servo

The verified core of a web view that a game-engine node shows through an
embedded browser engine.

- `src/shared.rs`: the state that the engine's delegates share with the node
  (queued signal events, the frame-ready flag, the pending embedder control).
- `src/delegate.rs`: what each delegate report queues, and the allow/deny
  policy for the engine's requests.
- `src/signals.rs`: how queued events become the node's signals, in order.
- `src/controls.rs`: the replies to pending dialogs, pickers and menus.
- `src/input_map.rs`: engine key codes to browser keys.
- `src/browser.rs`: the node's lifecycle and the commands it sends to its web
  view (address parsing goes through the `url` crate).
- `app/`: the extension itself: engine classes, delegates, rendering and
  signal emission, which perform what the library decides.
