# threefa_core

The platform-independent heart of the 3FA desktop authenticator, verified with
Verus. `src/` holds the rules, each with a contract; `app/` is the shell around
them: window, files, clock, keychain and network.

| module | what it decides |
| --- | --- |
| `app_state` | the vault lifecycle: phases, signals, generation-stamped tokens |
| `lifecycle_laws` | what holds of the lifecycle over whole histories of signals |
| `controller` | who holds decrypted material and when; keypad, submit, counters, tick |
| `controller_laws` | what holds across those operations |
| `saving` | sealing and writing a vault that is new or has changed |
| `accounts` | the account list: lookup, rows, countdowns |
| `storage` | the data directory, the temporary name, the steps of replacing a file |
| `storage_laws` | crash safety, durability and privacy of those steps |
| `sign_in`, `pin_unlock`, `sync_run` | the order of the conversations with the servers |
| `notice` | screens, and the lines the user is shown |
| `clipboard` | when a copied code is cleared |
| `text` | decimal numbers, byte lengths, and the wiping of the passcode buffer |

Trusted without proof, all in `text`: `String::with_capacity`, `String::pop`, and
`zeroize` on a string.
