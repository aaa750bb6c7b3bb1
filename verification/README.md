# PortalTech

A tunnel that puts a local HTTP server behind a public relay. A client connects to the relay with
a token and gets a public address. Each HTTP request for that address goes to the client as a
message, the client asks the local server, and the response goes back to the caller.

`src/` is the library, verified with Verus. It holds what the two ends decide and compute, and
does no input or output.

| Module        | Contents                                                                   |
|---------------|----------------------------------------------------------------------------|
| `message`     | the messages between the relay and a client, and their bodies              |
| `headers`     | header tables, and which headers may pass in which direction               |
| `relay`       | the token, the open tunnels, the requests that wait, and what callers get  |
| `agent`       | what a client shows, asks of the local server and tells the relay          |
| `base64_text` | what Base64 text is                                                        |
| `ident`       | identifiers of clients and requests                                        |
| `table`       | a map from text to values                                                  |
| `text`        | comparison, decimal numbers and lower case                                 |
| `laws`        | what holds across calls and across the two ends of the tunnel              |

`app/` is the program around it: `portaltech server` runs the relay, and `portaltech cli` runs a
client.

The library takes Base64 from the crate `base64`, random identifiers from `nanoid`, and the rules
for header values and request methods from `http`. Each such call stands behind one function whose
contract says what is relied on.
