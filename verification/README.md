# nc_teltonika_server

A TCP server for Teltonika GPS trackers. The library (`src/`, whose functions are
proved against their contracts) holds the protocol logic:

- `parser`: the IMEI handshake and Codec 8 Extended AVL packets, decoded from
  bytes against a specification of the format (`codec8e`), with the table of
  IO element definitions (`io_elements`) and properties of decoding (`laws`);
- `session`: what a connection does with each received chunk;
- `notifications`, `webhook`, `tunnel`: the texts and arguments the server
  sends to its chat channel, API webhook and SSH tunnel;
- `utils`: the log text of a record;
- `text`: decimal and hexadecimal renderings.

`app/` is the executable around it: sockets, the database, HTTP calls,
settings from the environment, and the float and date conversions used for
storing and logging records. The Teams channel address is read from the
`TEAMS_WEBHOOK_URL` variable; when it is unset, no Teams message is sent.
