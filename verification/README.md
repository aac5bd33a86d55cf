# rumqtt

The protocol state of an MQTT 3.1.1 client, verified with Verus.

- `src/client/state.rs`: `MqttState`, the state and its methods. They change the
  state and say what to send; they do no network operations.
- `src/client/session.rs`: `Session`, the mathematical model of the state, with
  what each event makes of it. The contracts of `MqttState` speak of it.
- `src/client/laws.rs`: what holds over many events, proved over the model.
- `src/options.rs`: configuration of a client.
- `src/packet.rs`: the packets that the state deals with.
- `src/token.rs`: passwords for Google Cloud IoT Core.
- `src/clock.rs`: lengths of time and the clocks that are read.
- `src/error.rs`: why a request is refused.
- `app/`: the same state over the packets of the `mqtt3` crate, with the private
  key read from a file.

A few items are trusted: they call `std`, `chrono` or `jsonwebtoken`, and their
contracts are taken from what those document. Each says in its doc comment what
it claims.
