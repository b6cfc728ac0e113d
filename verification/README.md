# onlyprox

A VPN client that gathers proxy links (`vless://`, `vmess://`, `trojan://`,
`ss://`) from subscriptions and from links added by hand, tests them through
Xray, and connects through the one the user picks.

The library under `src/` is verified with Verus:

- `text` — trimming, line splitting, prefixes and decimals over characters;
- `adapters` — the calls into `url`, `base64`, `serde_json` and std, each tied
  to its arguments by a named result;
- `json` — the part of a vmess JSON document that the parser reads;
- `models` — links, their parameters and the user's sources, with their views;
- `parser` / `parse` — link and feed parsing (plain or base64 feeds), stated
  exactly over the named results;
- `sources` — editing subscriptions and custom links, with laws;
- `fetcher` — gathering links from all sources without duplicate servers;
- `builder` — the Xray outbound that a link's parameters call for;
- `config` — the whole Xray configuration document around one outbound;
- `checker` — the country code from a Cloudflare trace;
- `backend` — the worker's decisions for each command of the interface;
- `ui`, `desktop` — text and paths for the interface and desktop integration.

`app/` holds the program around it: the egui window, the worker thread,
HTTP requests, the Xray process, the system proxy and the files on disk.
