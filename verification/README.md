# alarm_dot_com

A client library for Alarm.com security panels (partitions, sensors, locks,
garage doors, lights, thermostats), written in Verus.

- `src/` is the verified library. It holds the device models and the
  JSON:API documents that carry them, the session of a client (credentials,
  anti-forgery key, trusted-device cookie, login state) with every decision
  of the login flow, the retry rules of API requests, the requests that
  device commands send, and the reading of the answers. Each public function
  states its result in its contract; laws that relate several functions are
  proved as `law_*` proof functions.
- `app/` performs the HTTP exchanges with `reqwest`, reads JSON with `serde`,
  and holds the thermostat, whose temperatures are floating point numbers.
- `tests/` runs the library on concrete values.
