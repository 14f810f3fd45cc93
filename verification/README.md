# panduza_core

The core of the Panduza platform, written in Verus.

`src/` is the verified library:

- `info`: the structure tree of each device (topics, interfaces,
  attributes) and the registration and status of devices;
- `interface`: the interface state machine, its events, the shared state of
  an interface and its logger;
- `platform`: the connection information (parsing and writing), the
  settings files, the boot decisions and the main loop decisions;
- `meta`: the commands that bench power channels, relays, meters and register
  maps accept, decoded from their `cmds/set` payloads;
- `reactor`, `subscription`: topics, message dispatch, topic filters and the
  answer to platform scans;
- `json`, `text`, `registry`, `logger`, `factory`, `device`: the values,
  strings, maps, log records and producers used by the rest.

Calls into `serde_json`, `regex`, `hostname` and `chrono` stand behind small
trusted functions whose contracts are stated in their doc comments.

`app/` holds the asynchronous runtime around the library: tokio tasks, the
MQTT connection through `rumqttc`, files, the terminal and `tracing`.
