# Conduit

A node of a decentralized peer-to-peer network for sharing and using large language
models through an OpenAI-compatible API. The decisions of the node are a library in Verus,
each with a contract that Verus proves; the sockets, the swarm and the HTTP server around it
are ordinary Rust.

## The library, `src/`

- `config`, `clock`: the configuration file, and the hours in which a provider serves.
- `guard`: the rules that every request passes, in this order: the access key, the schedule,
  the rate limit, the longest conversation. They bind alike for requests from peers, for
  streams from peers, and for clients of the local API.
- `serve`, `backend`: what a provider does with a request, and the model server it hands
  requests to.
- `relay`: the three hops of a stream, from the backend to the client.
- `router`, `peers`: commands to the network, who waits for which answer, peer ids, addresses
  and the keys under which models are announced.
- `api`, `auth`: the steps of the handlers of the local API, and the key that a client shows.
- `startup`: what a node is started with. The command line comes before the configuration
  file.
- `network`, `text`: the messages between nodes, and helpers on text.
- `history`, `doors`: what holds of every run of requests, and of a request wherever it comes
  in. No stretch of sixty seconds holds more served requests than the limit; the rules bind
  alike at every door; the key that a client shows is the key that the provider sees.

Calls into `chrono`, `axum`, `libp2p`, `libp2p-identity` and `libp2p-kad` stand in small
functions marked `external_body` in `clock`, `auth` and `peers`. Their doc comments say what
is claimed of them.

## The program, `app/`

`main` runs the swarm and the event loop, `api` the HTTP server, `config` reads `config.yml`,
and `network` holds the messages as JSON.

```yaml
http_port: 8888
p2p_port: 8000
bootstrap_nodes: ["/ip4/YOUR_VPS_IP/tcp/8000"] # the first one is dialed
local_llm: "http://127.0.0.1:11434/v1"
local_llm_api_key: null
access_key: "tutu"
models: ["llama-3", "mistral-7b"]
max_context: 5000
rate_limit:
  requests_per_minute: 10
schedule:
  start: "00:00"
  end: "07:00"
```
