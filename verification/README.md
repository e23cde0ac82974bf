# ai_provider

A decentralized AI image service on Kinode: users and whitelisted accounts ask a broker for
tasks, workers claim them, and a diffusion process runs them on ComfyUI.

`src/` is the verified library (Verus):

- `shared` — process ids, addresses, tasks and the messages between processes.
- `string_map` — a map with text keys, kept as a list of entries with no key twice.
- `text` — splitting on `:` and writing numbers in decimal.
- `broker` — the broker's state (task queue, waiting line, ongoing tasks, chain data) and how
  it handles requests from users, workers, its operator and HTTP.
- `worker` — the worker's state and its handling of broker, operator and process requests.
- `diffusion` — the diffusion process's state, ComfyUI addresses and job progress.
- `signing` — Ethereum message hashes, signer recovery, address text forms.
- `contract` — call data for the AppRegistry contract and decoding its answers.
- `ids` — fresh task ids.

`app/` holds the Kinode processes themselves: message loops, HTTP, chain calls, saving state.
`tests/` runs the library on concrete values.
