# esp-idf-matter

The transports of a Matter device on ESP-IDF: BTP over GATT (as the accessory and as the
commissioner) on the NimBLE host, and Thread with SRP on OpenThread.

`src/` is the library. It holds every decision as a state machine with a contract, proved by Verus:
it is told what has happened and answers what to do next. `app/` drives the radios, the BTP engine
and the timers accordingly.

| Module | What it decides |
| --- | --- |
| `ble::peripheral` | the event hooks and the two pumps of the accessory |
| `ble::central` | discovery, subscription and the two pumps of the commissioner |
| `thread::ctl` | how a Thread network is joined, and when its interface is operational |
| `thread::scan` | which networks a scan keeps and reports |
| `thread::srp` | the host name, and which services are registered or removed |
| `wireless` | how the Thread radio is brought up and put to rest |

What holds of whole sequences of events stands in the `*_laws` modules, and at the end of
`thread::scan` and `wireless`.

`storage` and `time` state what is believed of `heapless`, of `embassy-time` and of the standard
library's UTF-8 check. Nothing else is taken on trust.
